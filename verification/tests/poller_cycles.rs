use aware_agent::poller::{
    disk_poller, memory_poller, meta_cpu_poller, network_poller, plan_cycle, process_poller,
    sockets_poller, CycleStep, PollerConfig,
};
use aware_agent::state::{AppState, Kind};
use aware_agent::{
    DISK_DURATION, LDISK_DURATION, LMEM_DURATION, LNET_DURATION, LPROC_DURATION, LSOCKET_DURATION,
    MEM_DURATION, NET_DURATION, PROC_DURATION, SOCKET_DURATION,
};

fn all_pollers() -> Vec<PollerConfig> {
    vec![
        meta_cpu_poller(200),
        disk_poller(),
        memory_poller(),
        network_poller(),
        process_poller(),
        sockets_poller(),
    ]
}

#[test]
fn focus_defaults_to_meta() {
    assert_eq!(AppState::default(), AppState::Meta);
}

#[test]
fn unavailable_focus_retries_on_fixed_backoff() {
    for cfg in all_pollers() {
        // The backoff is the poller's fast interval, the same every cycle,
        // and never zero (no spinning).
        for _ in 0..3 {
            match plan_cycle(&cfg, None) {
                CycleStep::Retry { sleep_ms } => {
                    assert_eq!(sleep_ms, cfg.fast_ms);
                    assert!(sleep_ms > 0);
                }
                other => panic!("expected a retry, got {:?}", other),
            }
        }
    }
}

#[test]
fn fast_interval_iff_own_category() {
    let focuses = [
        AppState::Meta,
        AppState::Cpu,
        AppState::Disk,
        AppState::Processes,
        AppState::Network,
        AppState::Sockets,
        AppState::Memory,
    ];
    for cfg in [
        disk_poller(),
        memory_poller(),
        network_poller(),
        process_poller(),
        sockets_poller(),
    ] {
        for focus in focuses {
            let expected = if focus == cfg.category {
                cfg.fast_ms
            } else {
                cfg.slow_ms
            };
            assert_eq!(
                plan_cycle(&cfg, Some(focus)),
                CycleStep::Emit {
                    sleep_ms: expected
                }
            );
        }
    }
}

#[test]
fn poller_interval_constants() {
    let cfg = disk_poller();
    assert_eq!((cfg.fast_ms, cfg.slow_ms), (DISK_DURATION, LDISK_DURATION));
    assert_eq!(cfg.refresh_kind, Some(Kind::Disk));
    let cfg = memory_poller();
    assert_eq!((cfg.fast_ms, cfg.slow_ms), (MEM_DURATION, LMEM_DURATION));
    assert_eq!(cfg.refresh_kind, Some(Kind::Memory));
    let cfg = network_poller();
    assert_eq!((cfg.fast_ms, cfg.slow_ms), (NET_DURATION, LNET_DURATION));
    assert_eq!(cfg.refresh_kind, Some(Kind::Net));
    let cfg = process_poller();
    assert_eq!((cfg.fast_ms, cfg.slow_ms), (PROC_DURATION, LPROC_DURATION));
    assert_eq!(cfg.refresh_kind, Some(Kind::Proc));
    let cfg = sockets_poller();
    assert_eq!(
        (cfg.fast_ms, cfg.slow_ms),
        (SOCKET_DURATION, LSOCKET_DURATION)
    );
    assert_eq!(cfg.refresh_kind, None);
    let cfg = meta_cpu_poller(200);
    assert_eq!((cfg.fast_ms, cfg.slow_ms), (200, 400));
    assert_eq!(cfg.refresh_kind, Some(Kind::Cpu));
    assert_eq!(cfg.category, AppState::Cpu);
    assert_eq!(cfg.alt_category, Some(AppState::Meta));
}

#[test]
fn shutdown_stops_every_poller() {
    for cfg in all_pollers() {
        assert_eq!(
            plan_cycle(&cfg, Some(AppState::ShuttingDown)),
            CycleStep::Stop
        );
    }
}

#[test]
fn meta_cpu_poller_fast_under_meta_or_cpu() {
    let cfg = meta_cpu_poller(200);
    assert_eq!(
        plan_cycle(&cfg, Some(AppState::Cpu)),
        CycleStep::Emit { sleep_ms: 200 }
    );
    assert_eq!(
        plan_cycle(&cfg, Some(AppState::Meta)),
        CycleStep::Emit { sleep_ms: 200 }
    );
    assert_eq!(
        plan_cycle(&cfg, Some(AppState::Memory)),
        CycleStep::Emit { sleep_ms: 400 }
    );
}
