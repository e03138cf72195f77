use vstd::prelude::*;

use crate::profile::DaemonCommand;
use crate::profile::Profile;

verus! {

/// The profile the control loop is asked to enforce. Writers replace it
/// whole; the last write wins.
pub struct SharedTarget {
    profile: Profile,
}

/// The requested profile after one received line: `None` stands for a line
/// that did not parse as a command, which changes nothing, as the radio
/// toggles do not.
pub open spec fn line_effect(current: Profile, line: Option<DaemonCommand>) -> Profile {
    match line {
        Some(DaemonCommand::SetProfile(p)) => p,
        _ => current,
    }
}

/// The requested profile after the lines are handled in order.
pub open spec fn after_lines(current: Profile, lines: Seq<Option<DaemonCommand>>) -> Profile
    decreases lines.len(),
{
    if lines.len() == 0 {
        current
    } else {
        line_effect(after_lines(current, lines.drop_last()), lines.last())
    }
}

impl View for SharedTarget {
    type V = Profile;

    closed spec fn view(&self) -> Profile {
        self.profile
    }
}

impl SharedTarget {
    /// A target that requests the balanced profile.
    pub fn new() -> (r: SharedTarget)
        ensures
            r@ == Profile::Eco,
    {
        SharedTarget { profile: Profile::Eco }
    }

    pub fn get(&self) -> (r: Profile)
        ensures
            r == self@,
    {
        self.profile
    }

    pub fn set(&mut self, p: Profile)
        ensures
            final(self)@ == p,
    {
        self.profile = p;
    }

    /// Acts on one received line.
    pub fn handle_line(&mut self, line: Option<DaemonCommand>)
        ensures
            final(self)@ == line_effect(old(self)@, line),
    {
        match line {
            Some(DaemonCommand::SetProfile(p)) => self.set(p),
            _ => {},
        }
    }
}

/// Whether a client session still runs.
#[derive(Clone, Copy, Debug, PartialEq, Eq, Structural)]
pub enum SessionPhase {
    Streaming,
    Closed,
}

/// What happens on a client connection.
#[derive(Clone, Copy, Debug, PartialEq, Eq, Structural)]
pub enum SessionEvent {
    /// A line arrived; `None` if it did not parse as a command.
    Line(Option<DaemonCommand>),
    /// Reading from the client failed or reached its end.
    InboundEnded,
    /// Writing to the client failed, or no more snapshots will come.
    OutboundEnded,
}

/// The phase after an event: either direction ending closes the session,
/// and nothing reopens it.
pub open spec fn next_phase(phase: SessionPhase, ev: SessionEvent) -> SessionPhase {
    match ev {
        SessionEvent::Line(_) => phase,
        _ => SessionPhase::Closed,
    }
}

/// The requested profile after an event; a closed session changes nothing.
pub open spec fn event_effect(phase: SessionPhase, current: Profile, ev: SessionEvent) -> Profile {
    match (phase, ev) {
        (SessionPhase::Streaming, SessionEvent::Line(l)) => line_effect(current, l),
        _ => current,
    }
}

/// Phase and requested profile after the events, in order.
pub open spec fn run_events(phase: SessionPhase, current: Profile, evs: Seq<SessionEvent>) -> (SessionPhase, Profile)
    decreases evs.len(),
{
    if evs.len() == 0 {
        (phase, current)
    } else {
        let (p, c) = run_events(phase, current, evs.drop_last());
        (next_phase(p, evs.last()), event_effect(p, c, evs.last()))
    }
}

/// One client connection.
pub struct Session {
    pub phase: SessionPhase,
}

impl Session {
    /// A session on a connection just accepted.
    pub fn new() -> (r: Session)
        ensures
            r.phase == SessionPhase::Streaming,
    {
        Session { phase: SessionPhase::Streaming }
    }

    /// Acts on one event and returns whether the session still runs.
    pub fn on_event(&mut self, target: &mut SharedTarget, ev: SessionEvent) -> (r: bool)
        ensures
            final(self).phase == next_phase(old(self).phase, ev),
            final(target)@ == event_effect(old(self).phase, old(target)@, ev),
            r == (final(self).phase == SessionPhase::Streaming),
    {
        match ev {
            SessionEvent::Line(l) => {
                if self.phase == SessionPhase::Streaming {
                    target.handle_line(l);
                }
            },
            _ => {
                self.phase = SessionPhase::Closed;
            },
        }
        self.phase == SessionPhase::Streaming
    }
}

} // verus!
