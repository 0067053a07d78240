//! The event-to-action dispatch engine: resolves each incoming
//! property-change event to its configured reaction, enforces the
//! one-active-notification-per-channel lifecycle, and stops cleanly on
//! cancellation.
//!
//! The engine is a state machine. The caller owns the transports: it waits
//! for the next ready event, asks the engine what to do (`accept`), performs
//! the side effects (spawn each command, close the handed-back handle, show
//! the notification), and records the freshly shown handle (`record_shown`).

use crate::config::Config;
use crate::config::EventConfig;
use crate::config::NotificationConfig;
use crate::config::StateConfig;
use crate::config::WarningLevelConfig;
use vstd::prelude::*;

verus! {

/// The warning-level enumeration of the watched device.
#[derive(Debug, Clone, Copy, PartialEq, Eq, Structural)]
pub enum WarningLevel {
    Unknown,
    NoWarning,
    Discharging,
    Low,
    Critical,
    Action,
}

/// The power-state enumeration of the watched device.
#[derive(Debug, Clone, Copy, PartialEq, Eq, Structural)]
pub enum State {
    Unknown,
    Charging,
    Discharging,
    Empty,
    FullyCharged,
    PendingCharge,
    PendingDischarge,
}

/// One incoming property-change event, tagged with the stream it came from.
#[derive(Debug, Clone, Copy, PartialEq, Eq, Structural)]
pub enum Event {
    Warning(WarningLevel),
    Power(State),
}

/// The two independent channels, one per watched property stream.
#[derive(Debug, Clone, Copy, PartialEq, Eq, Structural)]
pub enum ChannelId {
    Warning,
    Power,
}

/// The channel an event arrives on.
pub open spec fn channel_of_event(e: Event) -> ChannelId {
    match e {
        Event::Warning(_) => ChannelId::Warning,
        Event::Power(_) => ChannelId::Power,
    }
}

/// The reaction entry a warning level resolves to.
pub open spec fn resolve_warning_spec(c: WarningLevelConfig, level: WarningLevel) -> EventConfig {
    match level {
        WarningLevel::Unknown => c.unknown,
        WarningLevel::NoWarning => c.none,
        WarningLevel::Discharging => c.discharging,
        WarningLevel::Low => c.low,
        WarningLevel::Critical => c.critical,
        WarningLevel::Action => c.action,
    }
}

/// The reaction entry a power state resolves to.
pub open spec fn resolve_state_spec(c: StateConfig, state: State) -> EventConfig {
    match state {
        State::Unknown => c.unknown,
        State::Charging => c.charging,
        State::Discharging => c.discharging,
        State::Empty => c.empty,
        State::FullyCharged => c.fully_charged,
        State::PendingCharge => c.pending_charge,
        State::PendingDischarge => c.pending_discharge,
    }
}

/// The reaction entry an event resolves to.
pub open spec fn resolve_event_spec(c: Config, e: Event) -> EventConfig {
    match e {
        Event::Warning(level) => resolve_warning_spec(c.warning_level, level),
        Event::Power(state) => resolve_state_spec(c.state, state),
    }
}

impl WarningLevelConfig {
    /// Resolves a warning level to its reaction entry. Total: every variant
    /// maps to exactly one entry, with no fallback.
    pub fn resolve(&self, level: &WarningLevel) -> (r: &EventConfig)
        ensures
            *r == resolve_warning_spec(*self, *level),
    {
        match level {
            WarningLevel::Unknown => &self.unknown,
            WarningLevel::NoWarning => &self.none,
            WarningLevel::Discharging => &self.discharging,
            WarningLevel::Low => &self.low,
            WarningLevel::Critical => &self.critical,
            WarningLevel::Action => &self.action,
        }
    }
}

impl StateConfig {
    /// Resolves a power state to its reaction entry. Total: every variant
    /// maps to exactly one entry, with no fallback.
    pub fn resolve(&self, state: &State) -> (r: &EventConfig)
        ensures
            *r == resolve_state_spec(*self, *state),
    {
        match state {
            State::Unknown => &self.unknown,
            State::Charging => &self.charging,
            State::Discharging => &self.discharging,
            State::Empty => &self.empty,
            State::FullyCharged => &self.fully_charged,
            State::PendingCharge => &self.pending_charge,
            State::PendingDischarge => &self.pending_discharge,
        }
    }
}

impl Config {
    /// Resolves an event to its reaction entry via the table of the channel
    /// the event arrived on.
    pub fn resolve(&self, event: &Event) -> (r: &EventConfig)
        ensures
            *r == resolve_event_spec(*self, *event),
    {
        match event {
            Event::Warning(level) => self.warning_level.resolve(level),
            Event::Power(state) => self.state.resolve(state),
        }
    }
}

/// One channel's notification slot: at most one outstanding handle.
pub struct ChannelState<H> {
    pub active: Option<H>,
}

impl<H> ChannelState<H> {
    /// A fresh channel, with no notification outstanding.
    pub fn new() -> (c: Self)
        ensures
            c.active is None,
    {
        ChannelState { active: None }
    }

    /// Empties the slot and hands back whatever handle was outstanding, for
    /// the caller to close.
    pub fn take_active(&mut self) -> (h: Option<H>)
        ensures
            final(self).active is None,
            h == old(self).active,
    {
        self.active.take()
    }

    /// Stores the handle of a freshly shown notification. The slot must be
    /// empty: the previous handle is always taken (and closed) first.
    pub fn put_active(&mut self, h: H)
        requires
            old(self).active is None,
        ensures
            final(self).active == Some(h),
    {
        self.active = Some(h);
    }
}

/// The dispatch engine: one notification slot per channel, and a running
/// flag that the cancellation signal clears for good.
pub struct Engine<H> {
    pub running: bool,
    pub warning: ChannelState<H>,
    pub power: ChannelState<H>,
}

/// The slot of channel `ch` in engine `e`.
pub open spec fn channel_of<H>(e: Engine<H>, ch: ChannelId) -> Option<H> {
    match ch {
        ChannelId::Warning => e.warning.active,
        ChannelId::Power => e.power.active,
    }
}

/// `e` with channel `ch`'s slot set to `v` and everything else unchanged.
pub open spec fn set_channel<H>(e: Engine<H>, ch: ChannelId, v: Option<H>) -> Engine<H> {
    match ch {
        ChannelId::Warning => Engine {
            running: e.running,
            warning: ChannelState { active: v },
            power: e.power,
        },
        ChannelId::Power => Engine {
            running: e.running,
            warning: e.warning,
            power: ChannelState { active: v },
        },
    }
}

/// The terminal transition: cancellation clears the running flag and touches
/// nothing else.
pub open spec fn cancel_spec<H>(e: Engine<H>) -> Engine<H> {
    Engine { running: false, warning: e.warning, power: e.power }
}

/// One `accept` at the spec level: the engine afterwards, and whether a step
/// plan was issued. A cancelled engine ignores the event entirely.
pub open spec fn accept_spec<H>(e: Engine<H>, ch: ChannelId) -> (Engine<H>, bool) {
    if e.running {
        (set_channel(e, ch, None), true)
    } else {
        (e, false)
    }
}

/// Everything one handling step must do, in order: spawn each command
/// (isolated, fire-and-forget), close the handed-back handle, and show the
/// notification if one is given, recording its handle with `record_shown`.
pub struct StepPlan<'a, H> {
    pub commands: &'a Vec<String>,
    pub close: Option<H>,
    pub notify: Option<&'a NotificationConfig>,
}

impl<H> Engine<H> {
    /// A fresh engine: running, both channels empty.
    pub fn new() -> (e: Self)
        ensures
            e.running,
            e.warning.active is None,
            e.power.active is None,
    {
        Engine { running: true, warning: ChannelState::new(), power: ChannelState::new() }
    }

    /// Whether the engine still consumes events.
    pub fn is_running(&self) -> (b: bool)
        ensures
            b == self.running,
    {
        self.running
    }

    /// The cancellation signal fired: no further event will be processed.
    pub fn cancel(&mut self)
        ensures
            *final(self) == cancel_spec(*old(self)),
    {
        self.running = false;
    }

    /// Accepts one event. On a running engine this resolves the event to its
    /// reaction entry, empties the event's channel, and returns the full
    /// step plan: the commands to spawn, the previous handle to close, and
    /// the notification to show (if enabled). The other channel is never
    /// touched. On a cancelled engine nothing happens and no plan is issued.
    pub fn accept<'a>(&mut self, config: &'a Config, event: &Event) -> (plan: Option<
        StepPlan<'a, H>,
    >)
        ensures
            *final(self) == accept_spec(*old(self), channel_of_event(*event)).0,
            (plan is Some) == accept_spec(*old(self), channel_of_event(*event)).1,
            match plan {
                Some(p) => {
                    let cfg = resolve_event_spec(*config, *event);
                    &&& *p.commands == cfg.execute.commands
                    &&& p.close == channel_of(*old(self), channel_of_event(*event))
                    &&& match p.notify {
                        Some(n) => cfg.notification.enable && *n == cfg.notification,
                        None => !cfg.notification.enable,
                    }
                },
                None => !old(self).running,
            },
    {
        if !self.running {
            return None;
        }
        let cfg = config.resolve(event);
        let close = match event {
            Event::Warning(_) => self.warning.take_active(),
            Event::Power(_) => self.power.take_active(),
        };
        let notify = if cfg.notification.enable {
            Some(&cfg.notification)
        } else {
            None
        };
        Some(StepPlan { commands: &cfg.execute.commands, close, notify })
    }

    /// Records the handle of the notification just shown for `event`. The
    /// channel's slot is empty — `accept` emptied it — so at most one handle
    /// is ever outstanding per channel. The other channel is never touched.
    pub fn record_shown(&mut self, event: &Event, handle: H)
        requires
            channel_of(*old(self), channel_of_event(*event)) is None,
        ensures
            *final(self) == set_channel(
                *old(self),
                channel_of_event(*event),
                Some(handle),
            ),
    {
        match event {
            Event::Warning(_) => self.warning.put_active(handle),
            Event::Power(_) => self.power.put_active(handle),
        }
    }
}

/// The slot of one channel after a run of shown notifications, starting
/// from `init`: each handled event empties the slot (closing its handle, as
/// `accept` hands it back) and each recorded show fills it with the new
/// handle, so the slot always holds the most recent show.
pub open spec fn active_after_shows<H>(init: Option<H>, shows: Seq<H>) -> Option<H>
    decreases shows.len(),
{
    if shows.len() == 0 {
        init
    } else {
        active_after_shows(Some(shows[0]), shows.skip(1))
    }
}

proof fn lemma_active_after_shows_last<H>(init: Option<H>, shows: Seq<H>)
    ensures
        shows.len() == 0 ==> active_after_shows(init, shows) == init,
        shows.len() > 0 ==> active_after_shows(init, shows) == Some(shows.last()),
    decreases shows.len(),
{
    if shows.len() > 0 {
        lemma_active_after_shows_last(Some(shows[0]), shows.skip(1));
        if shows.len() > 1 {
            assert(shows.skip(1).last() == shows.last());
        }
    }
}

/// Channel replacement: over any run of events on one channel that starts
/// empty and where every event shows a notification, the handle the channel
/// still holds when the i-th event arrives — the one that event closes — is
/// exactly the handle the (i-1)-th event showed, and nothing at all for the
/// first event. At most one handle is therefore outstanding at any time.
pub proof fn lemma_channel_replacement<H>(shows: Seq<H>, i: int)
    requires
        0 <= i < shows.len(),
    ensures
        active_after_shows(Option::<H>::None, shows.take(i)) == (if i == 0 {
            Option::<H>::None
        } else {
            Some(shows[i - 1])
        }),
{
    lemma_active_after_shows_last(Option::<H>::None, shows.take(i));
    if i > 0 {
        assert(shows.take(i).last() == shows[i - 1]);
    }
}

/// Cross-channel independence: handling an event on one channel — emptying
/// its slot on accept or filling it on record — leaves the other channel's
/// slot exactly as it was.
pub proof fn lemma_cross_channel_independence<H>(
    e: Engine<H>,
    ch: ChannelId,
    other: ChannelId,
    v: Option<H>,
)
    requires
        ch != other,
    ensures
        channel_of(accept_spec(e, ch).0, other) == channel_of(e, other),
        channel_of(set_channel(e, ch, v), other) == channel_of(e, other),
{
}

/// Cancellation: once the signal has fired, no later event is processed —
/// an engine that has taken the terminal transition issues no plan and
/// never changes again, however many events are still buffered.
pub proof fn lemma_cancel_stops_processing<H>(e: Engine<H>, ch: ChannelId)
    ensures
        !cancel_spec(e).running,
        accept_spec(cancel_spec(e), ch) == (cancel_spec(e), false),
{
}

} // verus!
