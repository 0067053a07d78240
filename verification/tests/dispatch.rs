use upower_notify::config::Config;
use upower_notify::config::EventConfig;
use upower_notify::config::ExecConfig;
use upower_notify::config::NotificationConfig;
use upower_notify::config::StateConfig;
use upower_notify::config::UrgencyConfig;
use upower_notify::config::WarningLevelConfig;
use upower_notify::engine::Engine;
use upower_notify::engine::Event;
use upower_notify::engine::State;
use upower_notify::engine::WarningLevel;

fn entry(timeout: u32) -> EventConfig {
    EventConfig {
        notification: NotificationConfig {
            enable: true,
            summary: String::new(),
            body: String::new(),
            icon: String::new(),
            timeout,
            urgency: UrgencyConfig::Normal,
        },
        execute: ExecConfig { commands: Vec::new() },
    }
}

fn numbered_config() -> Config {
    Config {
        device: String::new(),
        warning_level: WarningLevelConfig {
            unknown: entry(10),
            none: entry(11),
            discharging: entry(12),
            low: entry(13),
            critical: entry(14),
            action: entry(15),
        },
        state: StateConfig {
            unknown: entry(20),
            charging: entry(21),
            discharging: entry(22),
            empty: entry(23),
            fully_charged: entry(24),
            pending_charge: entry(25),
            pending_discharge: entry(26),
        },
    }
}

#[test]
fn resolver_is_total_over_warning_levels() {
    let config = numbered_config();
    let cases = [
        (WarningLevel::Unknown, 10),
        (WarningLevel::NoWarning, 11),
        (WarningLevel::Discharging, 12),
        (WarningLevel::Low, 13),
        (WarningLevel::Critical, 14),
        (WarningLevel::Action, 15),
    ];
    for (level, timeout) in cases {
        assert_eq!(config.resolve(&Event::Warning(level)).notification.timeout, timeout);
        assert_eq!(config.warning_level.resolve(&level).notification.timeout, timeout);
    }
}

#[test]
fn resolver_is_total_over_power_states() {
    let config = numbered_config();
    let cases = [
        (State::Unknown, 20),
        (State::Charging, 21),
        (State::Discharging, 22),
        (State::Empty, 23),
        (State::FullyCharged, 24),
        (State::PendingCharge, 25),
        (State::PendingDischarge, 26),
    ];
    for (state, timeout) in cases {
        assert_eq!(config.resolve(&Event::Power(state)).notification.timeout, timeout);
        assert_eq!(config.state.resolve(&state).notification.timeout, timeout);
    }
}

#[test]
fn channel_replacement_closes_previous_handle_only() {
    let config = numbered_config();
    let mut engine: Engine<u32> = Engine::new();
    let event = Event::Warning(WarningLevel::Low);

    let first = engine.accept(&config, &event).expect("engine is running");
    assert_eq!(first.close, None, "nothing to close on a previously empty channel");
    engine.record_shown(&event, 11);

    let second = engine.accept(&config, &event).expect("engine is running");
    assert_eq!(second.close, Some(11), "the second show closes the first handle");
    engine.record_shown(&event, 12);

    let third = engine.accept(&config, &event).expect("engine is running");
    assert_eq!(third.close, Some(12), "each show closes exactly its predecessor");
}

#[test]
fn disabled_notification_still_clears_the_slot() {
    let mut config = numbered_config();
    config.warning_level.low.notification.enable = false;
    let mut engine: Engine<u32> = Engine::new();
    let event = Event::Warning(WarningLevel::Low);

    let first = engine.accept(&config, &event).expect("engine is running");
    assert!(first.notify.is_none());
    assert_eq!(first.close, None);
    assert_eq!(engine.warning.active, None, "slot stays empty when nothing is shown");

    // a previously shown notification is closed even when the new event shows none
    config.warning_level.low.notification.enable = true;
    let second = engine.accept(&config, &event).expect("engine is running");
    assert!(second.notify.is_some());
    engine.record_shown(&event, 5);
    config.warning_level.low.notification.enable = false;
    let third = engine.accept(&config, &event).expect("engine is running");
    assert_eq!(third.close, Some(5));
    assert!(third.notify.is_none());
    assert_eq!(engine.warning.active, None);
}

#[test]
fn command_isolation_keeps_spawning_after_a_failure() {
    let mut config = numbered_config();
    config.warning_level.low.execute.commands =
        vec!["first".to_string(), "second".to_string()];
    let mut engine: Engine<u32> = Engine::new();
    let event = Event::Warning(WarningLevel::Low);

    let plan = engine.accept(&config, &event).expect("engine is running");
    let mut attempted: Vec<String> = Vec::new();
    let mut failures: u32 = 0;
    for command in plan.commands {
        attempted.push(command.clone());
        // a spawner whose first command fails: the failure is noted and the
        // loop goes on to the next command
        let spawn_result: Result<(), &str> = if attempted.len() == 1 {
            Err("spawn failed")
        } else {
            Ok(())
        };
        if spawn_result.is_err() {
            failures += 1;
        }
    }
    assert_eq!(attempted, vec!["first".to_string(), "second".to_string()]);
    assert_eq!(failures, 1);
    // the handling step still completes: the notification phase proceeds
    assert!(plan.notify.is_some());
    engine.record_shown(&event, 1);
    assert_eq!(engine.warning.active, Some(1));
}

#[test]
fn channels_are_independent() {
    let config = numbered_config();
    let mut engine: Engine<u32> = Engine::new();
    let warning_event = Event::Warning(WarningLevel::Critical);
    let power_event = Event::Power(State::Discharging);

    engine.accept(&config, &warning_event).expect("engine is running");
    engine.record_shown(&warning_event, 1);
    engine.accept(&config, &power_event).expect("engine is running");
    engine.record_shown(&power_event, 2);

    let plan = engine.accept(&config, &warning_event).expect("engine is running");
    assert_eq!(plan.close, Some(1), "the warning channel closes its own handle");
    assert_eq!(engine.power.active, Some(2), "the power channel is untouched");
}

#[test]
fn cancellation_stops_event_processing() {
    let config = numbered_config();
    let mut engine: Engine<u32> = Engine::new();
    let event = Event::Power(State::Charging);

    engine.accept(&config, &event).expect("engine is running");
    engine.record_shown(&event, 9);

    engine.cancel();
    assert!(!engine.is_running());
    assert!(engine.accept(&config, &event).is_none(), "buffered events are not processed");
    assert!(engine.accept(&config, &Event::Warning(WarningLevel::Action)).is_none());
    assert_eq!(engine.power.active, Some(9), "cancellation leaves channel state as it was");
}

#[test]
fn default_config_matches_the_stock_reactions() {
    let config = Config::default();
    assert_eq!(config.device, "/org/freedesktop/UPower/devices/battery_BAT0");

    let low = &config.warning_level.low;
    assert!(low.notification.enable);
    assert_eq!(low.notification.summary, "Battery low");
    assert_eq!(low.notification.body, "Approximately <b>{time}</b> remaining ({percentage}%)");
    assert_eq!(low.notification.icon, "battery-low-symbolic");
    assert_eq!(low.notification.timeout, 30000);
    assert!(matches!(low.notification.urgency, UrgencyConfig::Normal));
    assert!(low.execute.commands.is_empty());

    let critical = &config.warning_level.critical;
    assert!(critical.notification.enable);
    assert_eq!(critical.notification.summary, "Battery critically low");
    assert_eq!(critical.notification.body, "Shutting down soon unless plugged in.");
    assert_eq!(critical.notification.icon, "battery-caution-symbolic");
    assert_eq!(critical.notification.timeout, 0);
    assert!(matches!(critical.notification.urgency, UrgencyConfig::Critical));

    let action = &config.warning_level.action;
    assert!(action.notification.enable);
    assert_eq!(action.notification.summary, "Battery critically low");
    assert_eq!(
        action.notification.body,
        "The battery is below the critical level and this computer is about to shutdown."
    );
    assert_eq!(action.notification.icon, "battery-action-symbolic");
    assert_eq!(action.notification.timeout, 0);
    assert!(matches!(action.notification.urgency, UrgencyConfig::Critical));

    for inert in [
        &config.warning_level.unknown,
        &config.warning_level.none,
        &config.warning_level.discharging,
        &config.state.unknown,
        &config.state.charging,
        &config.state.discharging,
        &config.state.empty,
        &config.state.fully_charged,
        &config.state.pending_charge,
        &config.state.pending_discharge,
    ] {
        assert!(!inert.notification.enable);
        assert_eq!(inert.notification.summary, "Notification Summary");
        assert_eq!(inert.notification.body, "Notification Body");
        assert_eq!(inert.notification.icon, "");
        assert_eq!(inert.notification.timeout, 30000);
        assert!(matches!(inert.notification.urgency, UrgencyConfig::Normal));
        assert!(inert.execute.commands.is_empty());
    }

    assert!(matches!(UrgencyConfig::default(), UrgencyConfig::Normal));
}
