use vstd::prelude::*;

use crate::actuator::effective;
use crate::actuator::plan;
use crate::actuator::Step;
use crate::actuator::UNPLUG_SETTLE_MS;
use crate::broadcast::Broadcaster;
use crate::broadcast::Subscription;
use crate::profile::DaemonCommand;
use crate::profile::Profile;
use crate::session::after_lines;
use crate::session::event_effect;
use crate::session::run_events;
use crate::session::SessionEvent;
use crate::session::SessionPhase;

verus! {

/// Whether a received line asks for a profile.
pub open spec fn is_request(line: Option<DaemonCommand>) -> bool {
    line matches Some(DaemonCommand::SetProfile(_))
}

/// On external power the most permissive profile is enforced, once,
/// whatever was requested and whatever was seen before.
pub proof fn lemma_plugged_in_enforces_pro(last_plugged_in: Option<bool>, requested: Profile)
    ensures
        plan(last_plugged_in, requested, true) == seq![Step::Enforce(Profile::Pro)],
{
}

/// On battery every enforcement is of the requested profile.
pub proof fn lemma_unplugged_enforces_request(last_plugged_in: Option<bool>, requested: Profile)
    ensures
        plan(last_plugged_in, requested, false).len() >= 1,
        forall|i: int|
            0 <= i < plan(last_plugged_in, requested, false).len() && (#[trigger] plan(
                last_plugged_in,
                requested,
                false,
            )[i]) is Enforce ==> plan(last_plugged_in, requested, false)[i]->Enforce_0 == requested,
{
}

/// Leaving external power enforces the requested profile twice in that
/// tick, with a short pause between the two.
pub proof fn lemma_unplug_enforces_twice(requested: Profile)
    ensures
        plan(Some(true), requested, false) == seq![
            Step::Enforce(requested),
            Step::Pause(UNPLUG_SETTLE_MS),
            Step::Enforce(requested),
        ],
{
}

/// Over two ticks that see the same power source as the tick before them,
/// each tick enforces its effective profile exactly once: an unchanged
/// state is never skipped.
pub proof fn lemma_steady_source_enforces_once(
    last_plugged_in: Option<bool>,
    first: Profile,
    second: Profile,
    is_plugged_in: bool,
)
    requires
        last_plugged_in == Some(is_plugged_in),
    ensures
        plan(last_plugged_in, first, is_plugged_in) == seq![Step::Enforce(effective(first, is_plugged_in))],
        plan(Some(is_plugged_in), second, is_plugged_in) == seq![
            Step::Enforce(effective(second, is_plugged_in)),
        ],
{
}

/// A new subscriber has the value current when it subscribed waiting for
/// it, even if nothing was published since.
pub proof fn lemma_new_subscriber_sees_current<T>(b: Broadcaster<T>, sub: Subscription)
    requires
        sub.seen_version() is None,
    ensures
        sub.pending(b.version()),
{
}

/// After a publish every subscriber has news, however far behind it was.
pub proof fn lemma_publish_reaches_every_subscriber(sub: Subscription, version: nat)
    requires
        sub.seen_version() matches Some(k) && k <= version,
    ensures
        sub.pending(version + 1),
{
}

/// Received lines, malformed or not, never close a session.
pub proof fn lemma_lines_keep_session_open(current: Profile, evs: Seq<SessionEvent>)
    requires
        forall|i: int| 0 <= i < evs.len() ==> (#[trigger] evs[i]) is Line,
    ensures
        run_events(SessionPhase::Streaming, current, evs).0 == SessionPhase::Streaming,
    decreases evs.len(),
{
    if evs.len() > 0 {
        let init = evs.drop_last();
        assert forall|i: int| 0 <= i < init.len() implies (#[trigger] init[i]) is Line by {
            assert(init[i] == evs[i]);
        }
        lemma_lines_keep_session_open(current, init);
    }
}

/// A malformed line followed by a request for `p` leaves the session open
/// and `p` requested.
pub proof fn lemma_malformed_then_valid(current: Profile, p: Profile)
    ensures
        run_events(
            SessionPhase::Streaming,
            current,
            seq![SessionEvent::Line(None), SessionEvent::Line(Some(DaemonCommand::SetProfile(p)))],
        ) == (SessionPhase::Streaming, p),
{
    let evs = seq![SessionEvent::Line(None), SessionEvent::Line(Some(DaemonCommand::SetProfile(p)))];
    assert(evs.drop_last().drop_last() =~= Seq::<SessionEvent>::empty());
    assert(evs.drop_last().last() == SessionEvent::Line(None));
    assert(run_events(SessionPhase::Streaming, current, evs.drop_last().drop_last()) == (
    SessionPhase::Streaming, current));
    assert(run_events(SessionPhase::Streaming, current, evs.drop_last()) == (
    SessionPhase::Streaming, current));
}

/// Writes in any order leave exactly one of the written profiles, or the
/// initial one if none was written, and that is the last one written.
pub proof fn lemma_last_write_wins(initial: Profile, lines: Seq<Option<DaemonCommand>>)
    ensures
        after_lines(initial, lines) == initial || exists|i: int|
            0 <= i < lines.len() && #[trigger] lines[i] == Some(
                DaemonCommand::SetProfile(after_lines(initial, lines)),
            ),
        forall|i: int|
            0 <= i < lines.len() && is_request(#[trigger] lines[i])
                && (forall|j: int|
                i < j < lines.len() ==> !is_request(lines[j]))
                ==> lines[i] == Some(DaemonCommand::SetProfile(after_lines(initial, lines))),
    decreases lines.len(),
{
    if lines.len() > 0 {
        let init = lines.drop_last();
        lemma_last_write_wins(initial, init);
        let prev = after_lines(initial, init);
        if prev != initial {
            let i = choose|i: int|
                0 <= i < init.len() && #[trigger] init[i] == Some(DaemonCommand::SetProfile(prev));
            assert(lines[i] == init[i]);
        }
        assert forall|i: int|
            0 <= i < lines.len() && is_request(#[trigger] lines[i])
                && (forall|j: int|
                i < j < lines.len() ==> !is_request(lines[j]))
                implies lines[i] == Some(DaemonCommand::SetProfile(after_lines(initial, lines))) by {
            if i < lines.len() - 1 {
                assert(!is_request(lines[lines.len() - 1]));
                assert(init[i] == lines[i]);
                assert forall|j: int| i < j < init.len() implies !is_request(init[j]) by {
                    assert(init[j] == lines[j]);
                }
            }
        }
    }
}

/// A request for `p` handled by an open session is what the next tick
/// reads, and so what its snapshot reports.
pub proof fn lemma_request_reaches_next_tick(current: Profile, p: Profile)
    ensures
        event_effect(
            SessionPhase::Streaming,
            current,
            SessionEvent::Line(Some(DaemonCommand::SetProfile(p))),
        ) == p,
{
}

} // verus!
