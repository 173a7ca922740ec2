use rofl_monitor::balance::mock_vault_balances;
use rofl_monitor::balance::VaultBalance;
use rofl_monitor::config::MonitoringConfig;
use rofl_monitor::growth::mock_rate_bps;
use rofl_monitor::monitor::step;
use rofl_monitor::monitor::Action;
use rofl_monitor::monitor::CycleState;
use rofl_monitor::monitor::Event;
use rofl_monitor::monitor::Monitor;
use rofl_monitor::monitor::MonitorError;
use rofl_monitor::monitor::StepOutput;

fn two_vaults() -> Vec<VaultBalance> {
    vec![
        VaultBalance {
            child_address: "0xaaaaaaaaaaaaaaaaaaaaaaaaaaaaaaaaaaaaaaaa".to_string(),
            vault_amount: 1_000_000_000_000_000_000,
            spending_amount: 0,
            is_verified: true,
        },
        VaultBalance {
            child_address: "0xbbbbbbbbbbbbbbbbbbbbbbbbbbbbbbbbbbbbbbbb".to_string(),
            vault_amount: 3_650_000,
            spending_amount: 10,
            is_verified: false,
        },
    ]
}

#[test]
fn mock_balances_fixture() {
    let v = mock_vault_balances();
    assert_eq!(v.len(), 1);
    assert_eq!(
        v[0].child_address,
        "0x1234567890abcdef1234567890abcdef12345678"
    );
    assert_eq!(v[0].vault_amount, 1_000_000_000_000_000_000);
    assert_eq!(v[0].spending_amount, 500_000_000_000_000_000);
    assert!(!v[0].is_verified);
}

#[test]
fn full_cycle_with_demo_data() {
    let (st, out) = step(CycleState::Idle, Event::Tick);
    assert_eq!(out.action, Some(Action::FetchBalances));
    assert!(!out.alert);
    assert_eq!(out.error, None);

    let (st, out) = step(st, Event::BalancesFetched(Ok(mock_vault_balances())));
    assert_eq!(out.action, Some(Action::FetchRate));
    assert_eq!(out.error, None);

    let (st, out) = step(st, Event::RateFetched(Ok(mock_rate_bps())));
    assert!(!out.alert, "3.5% is at or above the 2.0% threshold");
    assert_eq!(
        out.action,
        Some(Action::PushGrowth(
            "0x1234567890abcdef1234567890abcdef12345678".to_string(),
            95_890_410_958_904,
        ))
    );

    let (st, out) = step(st, Event::GrowthPushed(Ok(())));
    assert_eq!(out.action, None);
    assert_eq!(out.error, None);
    assert!(matches!(st, CycleState::Idle));
}

#[test]
fn source_failure_ends_cycle_and_machine_survives() {
    let (st, _) = step(CycleState::Idle, Event::Tick);
    let (st, out) = step(
        st,
        Event::BalancesFetched(Err("rpc unreachable".to_string())),
    );
    // the cycle ends at once: no rate fetch, no push
    assert_eq!(out.action, None);
    assert_eq!(
        out.error,
        Some(MonitorError::SourceUnavailable("rpc unreachable".to_string()))
    );
    assert!(matches!(st, CycleState::Idle));
    // the machine is still alive: the next tick starts a fresh cycle
    let (st, out) = step(st, Event::Tick);
    assert_eq!(out.action, Some(Action::FetchBalances));
    assert!(matches!(st, CycleState::AwaitingBalances));
}

#[test]
fn rate_failure_ends_cycle_without_pushes() {
    let (st, _) = step(CycleState::Idle, Event::Tick);
    let (st, _) = step(st, Event::BalancesFetched(Ok(two_vaults())));
    let (st, out) = step(st, Event::RateFetched(Err("pool query failed".to_string())));
    assert_eq!(out.action, None);
    assert!(!out.alert);
    assert_eq!(
        out.error,
        Some(MonitorError::SourceUnavailable("pool query failed".to_string()))
    );
    assert!(matches!(st, CycleState::Idle));
}

#[test]
fn push_failure_still_attempts_remaining_accounts() {
    let (st, _) = step(CycleState::Idle, Event::Tick);
    let (st, _) = step(st, Event::BalancesFetched(Ok(two_vaults())));
    let (st, out) = step(st, Event::RateFetched(Ok(350)));
    assert_eq!(
        out.action,
        Some(Action::PushGrowth(
            "0xaaaaaaaaaaaaaaaaaaaaaaaaaaaaaaaaaaaaaaaa".to_string(),
            95_890_410_958_904,
        ))
    );
    // the first push fails; the second account is still attempted
    let (st, out) = step(st, Event::GrowthPushed(Err("tx reverted".to_string())));
    assert_eq!(
        out.error,
        Some(MonitorError::SinkWriteFailed("tx reverted".to_string()))
    );
    assert_eq!(
        out.action,
        Some(Action::PushGrowth(
            "0xbbbbbbbbbbbbbbbbbbbbbbbbbbbbbbbbbbbbbbbb".to_string(),
            350,
        ))
    );
    // after the last acknowledgement the cycle is complete
    let (st, out) = step(st, Event::GrowthPushed(Ok(())));
    assert_eq!(out.action, None);
    assert!(matches!(st, CycleState::Idle));
}

#[test]
fn alert_fires_exactly_below_threshold() {
    for (bps, expected) in [(0u64, true), (199, true), (200, false), (350, false)] {
        let (st, _) = step(CycleState::Idle, Event::Tick);
        let (st, _) = step(st, Event::BalancesFetched(Ok(two_vaults())));
        let (_, out) = step(st, Event::RateFetched(Ok(bps)));
        assert_eq!(out.alert, expected, "rate {} bps", bps);
    }
}

#[test]
fn empty_balance_list_completes_cycle_without_pushes() {
    let (st, _) = step(CycleState::Idle, Event::Tick);
    let (st, _) = step(st, Event::BalancesFetched(Ok(Vec::new())));
    let (st, out) = step(st, Event::RateFetched(Ok(350)));
    assert_eq!(out.action, None);
    assert_eq!(out.error, None);
    assert!(matches!(st, CycleState::Idle));
}

#[test]
fn unexpected_events_are_ignored() {
    let (st, out) = step(CycleState::Idle, Event::RateFetched(Ok(350)));
    assert_eq!(out, StepOutput { action: None, alert: false, error: None });
    assert!(matches!(st, CycleState::Idle));

    let (st, _) = step(CycleState::Idle, Event::Tick);
    let (st, out) = step(st, Event::Tick);
    assert_eq!(out.action, None, "a buffered tick starts no second cycle");
    assert!(matches!(st, CycleState::AwaitingBalances));
}

#[test]
fn monitor_drives_a_full_cycle() {
    let config = MonitoringConfig::from_env_values(None, None, None, None, None);
    let mut monitor = Monitor::new(config);
    assert!(matches!(monitor.state, CycleState::Idle));

    let out = monitor.handle(Event::Tick);
    assert_eq!(out.action, Some(Action::FetchBalances));
    let out = monitor.handle(Event::BalancesFetched(Ok(mock_vault_balances())));
    assert_eq!(out.action, Some(Action::FetchRate));
    let out = monitor.handle(Event::RateFetched(Ok(mock_rate_bps())));
    assert!(!out.alert);
    let out = monitor.handle(Event::GrowthPushed(Ok(())));
    assert_eq!(out.action, None);
    assert!(matches!(monitor.state, CycleState::Idle));
    assert_eq!(monitor.config.check_interval_seconds, 3600);
}
