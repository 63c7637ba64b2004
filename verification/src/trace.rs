//! Whole runs of the dashboard: what holds after any sequence of events.

use crate::dashboard::{Action, Dashboard, Event, PowerReading, Stage};
use vstd::prelude::*;

verus! {

/// Every event of the sequence carries a well-formed reading, if any.
pub open spec fn all_wf(events: Seq<Event>) -> bool {
    forall|i: int| 0 <= i < events.len() ==> (#[trigger] events[i]).wf()
}

/// No event of the sequence is a press of the quit key.
pub open spec fn no_quit_key(events: Seq<Event>) -> bool {
    forall|i: int| 0 <= i < events.len() ==> !(#[trigger] events[i]).is_quit_key()
}

/// The dashboard after it has taken `events` one by one, starting from `d`.
pub open spec fn run_spec(d: Dashboard, events: Seq<Event>) -> Dashboard
    decreases events.len(),
{
    if events.len() == 0 {
        d
    } else {
        run_spec(d.step_spec(events[0]).0, events.skip(1))
    }
}

/// How often the release of the session is asked for while `d` takes
/// `events`.
pub open spec fn release_count(d: Dashboard, events: Seq<Event>) -> nat
    decreases events.len(),
{
    if events.len() == 0 {
        0
    } else {
        let (next, action) = d.step_spec(events[0]);
        let here: nat = if action == Action::ReleaseSession {
            1
        } else {
            0
        };
        here + release_count(next, events.skip(1))
    }
}

/// How often a frame is asked for while `d` takes `events`.
pub open spec fn draw_count(d: Dashboard, events: Seq<Event>) -> nat
    decreases events.len(),
{
    if events.len() == 0 {
        0
    } else {
        let (next, action) = d.step_spec(events[0]);
        let here: nat = if action is Draw {
            1
        } else {
            0
        };
        here + draw_count(next, events.skip(1))
    }
}

/// How often a poll for input is asked for while `d` takes `events`.
pub open spec fn poll_count(d: Dashboard, events: Seq<Event>) -> nat
    decreases events.len(),
{
    if events.len() == 0 {
        0
    } else {
        let (next, action) = d.step_spec(events[0]);
        let here: nat = if action is PollInput {
            1
        } else {
            0
        };
        here + poll_count(next, events.skip(1))
    }
}

/// The three events from `at` on are one round of the loop in which nothing
/// fails: the frame was drawn, the poll gave a key or nothing, and the
/// refresh gave a reading or failed. `last` says whether the key is a press
/// of the quit key.
pub open spec fn round_at(events: Seq<Event>, at: int, last: bool) -> bool {
    &&& events[at] == Event::FrameDrawn
    &&& (events[at + 1] is Key || events[at + 1] is NoInput)
    &&& events[at + 1].is_quit_key() == last
    &&& (events[at + 2] is Refreshed || events[at + 2] is RefreshFailed)
    &&& events[at + 2].wf()
}

/// Round `j` of `k` rounds; the last one is the one with the quit key.
pub open spec fn round_number(events: Seq<Event>, j: int, k: nat) -> bool {
    round_at(events, 3 * j, j == k - 1)
}

/// `events` are `k` rounds of the loop in which nothing fails, and the press
/// of the quit key comes in the last one and in no other.
pub open spec fn rounds_until_quit(events: Seq<Event>, k: nat) -> bool {
    &&& k >= 1
    &&& events.len() == 3 * k
    &&& forall|j: int| 0 <= j < k ==> #[trigger] round_number(events, j, k)
}

/// The loop or the startup has been left.
pub open spec fn left(d: Dashboard) -> bool {
    d.stage == Stage::Draining || d.stage == Stage::Terminated
}

/// What holds of all events holds of the first and of the rest.
pub proof fn rest_all_wf(events: Seq<Event>)
    requires
        all_wf(events),
        events.len() > 0,
    ensures
        events[0].wf(),
        all_wf(events.skip(1)),
{
    let rest = events.skip(1);
    assert forall|i: int| 0 <= i < rest.len() implies (#[trigger] rest[i]).wf() by {
        assert(rest[i] == events[i + 1]);
    }
}

/// Where no event is a press of the quit key, the first is none and the rest
/// holds none.
pub proof fn rest_no_quit_key(events: Seq<Event>)
    requires
        no_quit_key(events),
        events.len() > 0,
    ensures
        !events[0].is_quit_key(),
        no_quit_key(events.skip(1)),
{
    let rest = events.skip(1);
    assert forall|i: int| 0 <= i < rest.len() implies !(#[trigger] rest[i]).is_quit_key() by {
        assert(rest[i] == events[i + 1]);
    }
}

/// A well-formed dashboard stays well-formed over any run.
pub proof fn run_keeps_wf(d: Dashboard, events: Seq<Event>)
    requires
        d.wf(),
        all_wf(events),
    ensures
        run_spec(d, events).wf(),
    decreases events.len(),
{
    if events.len() > 0 {
        rest_all_wf(events);
        let rest = events.skip(1);
        run_keeps_wf(d.step_spec(events[0]).0, rest);
    }
}

/// From any well-formed dashboard: a run that starts after the release asks
/// for none; one that starts before it asks for one if it leaves the loop,
/// and for none if it does not.
pub proof fn release_count_from(d: Dashboard, events: Seq<Event>)
    requires
        d.wf(),
        all_wf(events),
    ensures
        left(d) ==> left(run_spec(d, events)) && release_count(d, events) == 0,
        !left(d) ==> release_count(d, events) == (if left(run_spec(d, events)) {
            1nat
        } else {
            0nat
        }),
    decreases events.len(),
{
    if events.len() > 0 {
        rest_all_wf(events);
        let rest = events.skip(1);
        release_count_from(d.step_spec(events[0]).0, rest);
    }
}

/// From any well-formed dashboard: without a press of the quit key `quit`
/// keeps its value.
pub proof fn quit_unchanged_from(d: Dashboard, events: Seq<Event>)
    requires
        d.wf(),
        all_wf(events),
        no_quit_key(events),
    ensures
        run_spec(d, events).state.quit == d.state.quit,
    decreases events.len(),
{
    if events.len() > 0 {
        rest_all_wf(events);
        rest_no_quit_key(events);
        let rest = events.skip(1);
        quit_unchanged_from(d.step_spec(events[0]).0, rest);
    }
}

/// The terminal session is released exactly once: over any run of a new
/// dashboard the release is asked for at most once, and exactly once by the
/// time the dashboard is draining or terminated, whether it got there by a
/// quit or by a failure.
pub proof fn session_released_exactly_once(events: Seq<Event>)
    requires
        all_wf(events),
    ensures
        release_count(Dashboard::initial(), events) <= 1,
        left(run_spec(Dashboard::initial(), events)) <==> release_count(
            Dashboard::initial(),
            events,
        ) == 1,
{
    release_count_from(Dashboard::initial(), events);
}

/// Nothing but a press of the quit key sets `quit`: a run of a new dashboard
/// without such a press leaves `quit` unset, and if it is terminated, it is
/// so by a failure.
pub proof fn no_quit_without_quit_key(events: Seq<Event>)
    requires
        all_wf(events),
        no_quit_key(events),
    ensures
        !run_spec(Dashboard::initial(), events).state.quit,
        run_spec(Dashboard::initial(), events).stage == Stage::Terminated ==> run_spec(
            Dashboard::initial(),
            events,
        ).failure is Some,
{
    quit_unchanged_from(Dashboard::initial(), events);
    run_keeps_wf(Dashboard::initial(), events);
}

/// A press of the quit key that arrives while input is polled ends the loop:
/// `quit` is set at once, the refresh that follows is the last one whatever
/// it gives, the release is asked for after it, and the dashboard terminates
/// without a failure.
pub proof fn quit_key_terminates(d: Dashboard, key: Event, refresh: Event, last: Event)
    requires
        d.wf(),
        d.stage == Stage::Polling,
        key.is_quit_key(),
        refresh.wf(),
        refresh is Refreshed || refresh is RefreshFailed,
    ensures
        d.step_spec(key).0.state.quit,
        d.step_spec(key).1 == Action::Refresh,
        d.step_spec(key).0.step_spec(refresh).1 == Action::ReleaseSession,
        run_spec(d, seq![key, refresh, last]).stage == Stage::Terminated,
        run_spec(d, seq![key, refresh, last]).failure is None,
        d.step_spec(key).0.step_spec(refresh).0.step_spec(last).1 == Action::Exit(None),
{
    let events = seq![key, refresh, last];
    let d1 = d.step_spec(key).0;
    let d2 = d1.step_spec(refresh).0;
    let d3 = d2.step_spec(last).0;
    assert(events[0] == key);
    assert(events.skip(1)[0] == refresh);
    assert(events.skip(1).skip(1)[0] == last);
    assert(events.skip(1).skip(1).skip(1).len() == 0);
    assert(run_spec(d3, events.skip(1).skip(1).skip(1)) == d3);
    assert(run_spec(d2, events.skip(1).skip(1)) == d3);
    assert(run_spec(d1, events.skip(1)) == d3);
}

/// Once `quit` is set it is never reset.
pub proof fn quit_is_never_reset(d: Dashboard, events: Seq<Event>)
    requires
        d.wf(),
        all_wf(events),
        d.state.quit,
    ensures
        run_spec(d, events).state.quit,
    decreases events.len(),
{
    if events.len() > 0 {
        rest_all_wf(events);
        let rest = events.skip(1);
        quit_is_never_reset(d.step_spec(events[0]).0, rest);
    }
}

/// From a dashboard that has just asked for a frame: over `k` rounds of
/// which the last brings the quit key, a poll is asked for once in each
/// round and a new frame after each round but the last, and the loop is left
/// at the end of the last round, with `quit` set and without a failure.
pub proof fn rounds_from_rendering(d: Dashboard, events: Seq<Event>, k: nat)
    requires
        d.wf(),
        d.stage == Stage::Rendering,
        rounds_until_quit(events, k),
    ensures
        run_spec(d, events).stage == Stage::Draining,
        run_spec(d, events).state.quit,
        run_spec(d, events).failure is None,
        poll_count(d, events) == k,
        draw_count(d, events) == k - 1,
        release_count(d, events) == 1,
    decreases k,
{
    assert(round_number(events, 0, k));
    let s1 = events.skip(1);
    let s2 = s1.skip(1);
    let s3 = s2.skip(1);
    assert(s1[0] == events[1] && s2[0] == events[2]);
    let d1 = d.step_spec(events[0]).0;
    let d2 = d1.step_spec(s1[0]).0;
    let d3 = d2.step_spec(s2[0]).0;
    assert(run_spec(d1, s1) == run_spec(d2, s2) && run_spec(d2, s2) == run_spec(d3, s3));
    assert(poll_count(d1, s1) == poll_count(d2, s2) && poll_count(d2, s2) == poll_count(d3, s3));
    assert(draw_count(d1, s1) == draw_count(d2, s2));
    assert(release_count(d1, s1) == release_count(d2, s2));
    if k == 1 {
        assert(s3.len() == 0);
        assert(draw_count(d2, s2) == draw_count(d3, s3));
        assert(release_count(d2, s2) == 1 + release_count(d3, s3));
    } else {
        let rest: nat = (k - 1) as nat;
        assert forall|j: int| 0 <= j < rest implies #[trigger] round_number(s3, j, rest) by {
            assert(round_number(events, j + 1, k));
            assert(s3[3 * j] == events[3 * (j + 1)]);
            assert(s3[3 * j + 1] == events[3 * (j + 1) + 1]);
            assert(s3[3 * j + 2] == events[3 * (j + 1) + 2]);
        }
        assert(draw_count(d2, s2) == 1 + draw_count(d3, s3));
        assert(release_count(d2, s2) == release_count(d3, s3));
        rounds_from_rendering(d3, s3, rest);
    }
}

/// A run in which nothing fails draws one frame and polls once in each
/// round, and ends with the round that brings the quit key: after the
/// startup and `k` rounds, of which the last holds the press, a new
/// dashboard has asked for exactly `k` frames, `k` polls and one release.
pub proof fn one_frame_and_one_poll_per_round(first: PowerReading, rounds: Seq<Event>, k: nat)
    requires
        first.wf(),
        rounds_until_quit(rounds, k),
    ensures
        ({
            let events = seq![Event::SessionEntered, Event::ProviderReady(first)] + rounds;
            &&& draw_count(Dashboard::initial(), events) == k
            &&& poll_count(Dashboard::initial(), events) == k
            &&& release_count(Dashboard::initial(), events) == 1
            &&& run_spec(Dashboard::initial(), events).stage == Stage::Draining
            &&& run_spec(Dashboard::initial(), events).failure is None
        }),
{
    let events = seq![Event::SessionEntered, Event::ProviderReady(first)] + rounds;
    let d0 = Dashboard::initial();
    let s1 = events.skip(1);
    let s2 = s1.skip(1);
    assert(events[0] == Event::SessionEntered);
    assert(s1[0] == Event::ProviderReady(first));
    assert(s2 =~= rounds);
    let d1 = d0.step_spec(events[0]).0;
    let d2 = d1.step_spec(s1[0]).0;
    assert(run_spec(d0, events) == run_spec(d1, s1) && run_spec(d1, s1) == run_spec(d2, s2));
    assert(draw_count(d0, events) == draw_count(d1, s1) && draw_count(d1, s1) == 1 + draw_count(
        d2,
        s2,
    ));
    assert(poll_count(d0, events) == poll_count(d1, s1) && poll_count(d1, s1) == poll_count(d2, s2));
    assert(release_count(d0, events) == release_count(d1, s1) && release_count(d1, s1)
        == release_count(d2, s2));
    rounds_from_rendering(d2, s2, k);
}

} // verus!
