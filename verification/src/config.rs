//! Configuration tree: one reaction entry per enumeration variant of each
//! watched property, fully defaulted before the engine starts.

use vstd::prelude::*;

verus! {

/// How urgent a shown notification is.
#[derive(Debug, Clone)]
pub enum UrgencyConfig {
    Low,
    Normal,
    Critical,
}

/// What to show when an event fires: an enable flag, summary, body template,
/// icon name, timeout in milliseconds (0 meaning "never expire"), and urgency.
#[derive(Debug, Clone)]
pub struct NotificationConfig {
    pub enable: bool,
    pub summary: String,
    pub body: String,
    pub icon: String,
    pub timeout: u32,
    pub urgency: UrgencyConfig,
}

/// Shell commands to spawn when an event fires, in order.
#[derive(Debug, Clone)]
pub struct ExecConfig {
    pub commands: Vec<String>,
}

/// The reaction to one event variant: an optional notification and a list of
/// commands.
#[derive(Debug, Clone)]
pub struct EventConfig {
    pub notification: NotificationConfig,
    pub execute: ExecConfig,
}

/// One reaction entry per warning-level variant.
#[derive(Debug, Clone)]
pub struct WarningLevelConfig {
    pub unknown: EventConfig,
    pub none: EventConfig,
    pub discharging: EventConfig,
    pub low: EventConfig,
    pub critical: EventConfig,
    pub action: EventConfig,
}

/// One reaction entry per power-state variant.
#[derive(Debug, Clone)]
pub struct StateConfig {
    pub unknown: EventConfig,
    pub charging: EventConfig,
    pub discharging: EventConfig,
    pub empty: EventConfig,
    pub fully_charged: EventConfig,
    pub pending_charge: EventConfig,
    pub pending_discharge: EventConfig,
}

/// The whole configuration tree: the device to watch and the reaction tables
/// for both watched properties.
#[derive(Debug, Clone)]
pub struct Config {
    pub device: String,
    pub warning_level: WarningLevelConfig,
    pub state: StateConfig,
}

/// The default notification: disabled, with placeholder text and a 30 s
/// timeout.
pub open spec fn notification_defaults(n: NotificationConfig) -> bool {
    &&& n.enable == false
    &&& n.summary@ == "Notification Summary"@
    &&& n.body@ == "Notification Body"@
    &&& n.icon@ == Seq::<char>::empty()
    &&& n.timeout == 30000u32
    &&& n.urgency is Normal
}

/// The default reaction: no notification, no commands.
pub open spec fn event_defaults(e: EventConfig) -> bool {
    &&& notification_defaults(e.notification)
    &&& e.execute.commands@ == Seq::<String>::empty()
}

/// All seven power-state reactions start out as the default reaction.
pub open spec fn state_defaults(s: StateConfig) -> bool {
    &&& event_defaults(s.unknown)
    &&& event_defaults(s.charging)
    &&& event_defaults(s.discharging)
    &&& event_defaults(s.empty)
    &&& event_defaults(s.fully_charged)
    &&& event_defaults(s.pending_charge)
    &&& event_defaults(s.pending_discharge)
}

/// The stock "battery low" reaction: a normal-urgency notification with a
/// templated body and no commands.
pub open spec fn default_low_reaction(e: EventConfig) -> bool {
    &&& e.execute.commands@ == Seq::<String>::empty()
    &&& e.notification.enable
    &&& e.notification.summary@ == "Battery low"@
    &&& e.notification.body@ == "Approximately <b>{time}</b> remaining ({percentage}%)"@
    &&& e.notification.icon@ == "battery-low-symbolic"@
    &&& e.notification.timeout == 30000u32
    &&& e.notification.urgency is Normal
}

/// The stock "battery critically low" reaction: a critical notification that
/// never expires.
pub open spec fn default_critical_reaction(e: EventConfig) -> bool {
    &&& e.execute.commands@ == Seq::<String>::empty()
    &&& e.notification.enable
    &&& e.notification.summary@ == "Battery critically low"@
    &&& e.notification.body@ == "Shutting down soon unless plugged in."@
    &&& e.notification.icon@ == "battery-caution-symbolic"@
    &&& e.notification.timeout == 0u32
    &&& e.notification.urgency is Critical
}

/// The stock "shutdown imminent" reaction: a critical notification that never
/// expires.
pub open spec fn default_action_reaction(e: EventConfig) -> bool {
    &&& e.execute.commands@ == Seq::<String>::empty()
    &&& e.notification.enable
    &&& e.notification.summary@ == "Battery critically low"@
    &&& e.notification.body@
        == "The battery is below the critical level and this computer is about to shutdown."@
    &&& e.notification.icon@ == "battery-action-symbolic"@
    &&& e.notification.timeout == 0u32
    &&& e.notification.urgency is Critical
}

/// The stock configuration: watch the first battery, react to the low,
/// critical and action warning levels, and leave everything else inert.
pub open spec fn config_defaults(c: Config) -> bool {
    &&& c.device@ == "/org/freedesktop/UPower/devices/battery_BAT0"@
    &&& event_defaults(c.warning_level.unknown)
    &&& event_defaults(c.warning_level.none)
    &&& event_defaults(c.warning_level.discharging)
    &&& default_low_reaction(c.warning_level.low)
    &&& default_critical_reaction(c.warning_level.critical)
    &&& default_action_reaction(c.warning_level.action)
    &&& state_defaults(c.state)
}

impl Default for UrgencyConfig {
    fn default() -> (d: Self)
        ensures
            d is Normal,
    {
        UrgencyConfig::Normal
    }
}

impl Default for NotificationConfig {
    fn default() -> (d: Self)
        ensures
            notification_defaults(d),
    {
        NotificationConfig {
            enable: false,
            summary: "Notification Summary".to_owned(),
            body: "Notification Body".to_owned(),
            icon: String::new(),
            timeout: 30000,
            urgency: UrgencyConfig::Normal,
        }
    }
}

impl Default for ExecConfig {
    fn default() -> (d: Self)
        ensures
            d.commands@ == Seq::<String>::empty(),
    {
        ExecConfig { commands: Vec::new() }
    }
}

impl Default for EventConfig {
    fn default() -> (d: Self)
        ensures
            event_defaults(d),
    {
        EventConfig { notification: NotificationConfig::default(), execute: ExecConfig::default() }
    }
}

impl Default for StateConfig {
    fn default() -> (d: Self)
        ensures
            state_defaults(d),
    {
        StateConfig {
            unknown: EventConfig::default(),
            charging: EventConfig::default(),
            discharging: EventConfig::default(),
            empty: EventConfig::default(),
            fully_charged: EventConfig::default(),
            pending_charge: EventConfig::default(),
            pending_discharge: EventConfig::default(),
        }
    }
}

impl Default for Config {
    fn default() -> (d: Self)
        ensures
            config_defaults(d),
    {
        Config {
            device: "/org/freedesktop/UPower/devices/battery_BAT0".to_owned(),
            warning_level: WarningLevelConfig {
                none: EventConfig::default(),
                unknown: EventConfig::default(),
                discharging: EventConfig::default(),
                low: EventConfig {
                    execute: ExecConfig::default(),
                    notification: NotificationConfig {
                        enable: true,
                        summary: "Battery low".to_owned(),
                        body: "Approximately <b>{time}</b> remaining ({percentage}%)".to_owned(),
                        icon: "battery-low-symbolic".to_owned(),
                        timeout: 30000,
                        urgency: UrgencyConfig::Normal,
                    },
                },
                critical: EventConfig {
                    execute: ExecConfig::default(),
                    notification: NotificationConfig {
                        enable: true,
                        summary: "Battery critically low".to_owned(),
                        body: "Shutting down soon unless plugged in.".to_owned(),
                        icon: "battery-caution-symbolic".to_owned(),
                        timeout: 0,
                        urgency: UrgencyConfig::Critical,
                    },
                },
                action: EventConfig {
                    execute: ExecConfig::default(),
                    notification: NotificationConfig {
                        enable: true,
                        summary: "Battery critically low".to_owned(),
                        body: "The battery is below the critical level and this computer is about to shutdown.".to_owned(),
                        icon: "battery-action-symbolic".to_owned(),
                        timeout: 0,
                        urgency: UrgencyConfig::Critical,
                    },
                },
            },
            state: StateConfig::default(),
        }
    }
}

} // verus!
