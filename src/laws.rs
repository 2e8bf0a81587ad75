use vstd::prelude::*;

use crate::session::{initial, restore_actions, step, teardown, ActionView, EventView, Phase, SessionError, SessionView};

verus! {

/// The session and the actions, in order, after a sequence of events.
pub open spec fn run<A>(s: SessionView<A>, evs: Seq<EventView<A>>) -> (
    SessionView<A>,
    Seq<ActionView<A>>,
)
    decreases evs.len(),
{
    if evs.len() == 0 {
        (s, Seq::empty())
    } else {
        let t = step(s, evs[0]);
        let rest = run(t.0, evs.drop_first());
        (rest.0, t.1 + rest.1)
    }
}

/// The terminal's attributes after the actions are performed on a terminal
/// that had `t`, where installing raw mode leaves it with `raw`.
pub open spec fn terminal_after<A>(t: A, raw: A, acts: Seq<ActionView<A>>) -> A
    decreases acts.len(),
{
    if acts.len() == 0 {
        t
    } else {
        let next = match acts[0] {
            ActionView::InstallRaw => raw,
            ActionView::RestoreAttributes(a) => a,
            _ => t,
        };
        terminal_after(next, raw, acts.drop_first())
    }
}

/// The bytes written to the shell by the actions, in order.
pub open spec fn written<A>(acts: Seq<ActionView<A>>) -> Seq<u8>
    decreases acts.len(),
{
    if acts.len() == 0 {
        Seq::empty()
    } else {
        let head = match acts[0] {
            ActionView::Write(b) => b,
            _ => Seq::empty(),
        };
        head + written(acts.drop_first())
    }
}

/// Every capture among the events read the attributes `t`.
pub open spec fn captures_read<A>(evs: Seq<EventView<A>>, t: A) -> bool {
    forall|i: int| 0 <= i < evs.len() ==> (#[trigger] evs[i] matches EventView::Captured(a) ==> a == t)
}

/// One send event for each chunk, in order.
pub open spec fn sends<A>(chunks: Seq<Seq<u8>>) -> Seq<EventView<A>> {
    chunks.map_values(|c: Seq<u8>| EventView::<A>::Send(c))
}

/// The terminal is as the session's phase says: raw while raw mode is held,
/// as found otherwise.
spec fn tracks<A>(s: SessionView<A>, t0: A, raw: A, term: A) -> bool {
    &&& s.wf()
    &&& (s.saved is Some ==> s.saved == Some(t0))
    &&& term == (if s.saved is Some {
        raw
    } else {
        t0
    })
}

proof fn lemma_terminal_after_concat<A>(t: A, raw: A, a: Seq<ActionView<A>>, b: Seq<ActionView<A>>)
    ensures
        terminal_after(t, raw, a + b) == terminal_after(terminal_after(t, raw, a), raw, b),
    decreases a.len(),
{
    if a.len() == 0 {
        assert(a + b =~= b);
    } else {
        assert((a + b).drop_first() =~= a.drop_first() + b);
        let next = match a[0] {
            ActionView::InstallRaw => raw,
            ActionView::RestoreAttributes(x) => x,
            _ => t,
        };
        lemma_terminal_after_concat(next, raw, a.drop_first(), b);
    }
}

proof fn lemma_written_concat<A>(a: Seq<ActionView<A>>, b: Seq<ActionView<A>>)
    ensures
        written(a + b) == written(a) + written(b),
    decreases a.len(),
{
    if a.len() == 0 {
        assert(a + b =~= b);
        assert(written(a) + written(b) =~= written(b));
    } else {
        assert((a + b).drop_first() =~= a.drop_first() + b);
        lemma_written_concat(a.drop_first(), b);
        let head = match a[0] {
            ActionView::Write(x) => x,
            _ => Seq::empty(),
        };
        assert(head + (written(a.drop_first()) + written(b)) =~= (head + written(a.drop_first()))
            + written(b));
    }
}

proof fn lemma_teardown_restores<A>(t: A, raw: A, saved: A)
    ensures
        terminal_after(t, raw, teardown(Some(saved))) == saved,
{
    reveal_with_fuel(terminal_after, 6);
}

/// One step keeps the terminal as the session's phase says.
proof fn lemma_step_tracks<A>(s: SessionView<A>, e: EventView<A>, t0: A, raw: A, term: A)
    requires
        tracks(s, t0, raw, term),
        e matches EventView::Captured(a) ==> a == t0,
    ensures
        tracks(step(s, e).0, t0, raw, terminal_after(term, raw, step(s, e).1)),
{
    reveal_with_fuel(terminal_after, 3);
    if s.phase == Phase::Active && (e is Eof || e is Stop || e is ReadFailed || e is WriteFailed) {
        lemma_teardown_restores(term, raw, t0);
    }
}

proof fn lemma_shutdown_writes_nothing<A>(saved: Option<A>)
    ensures
        written(teardown(saved)) == Seq::<u8>::empty(),
        written(restore_actions(saved)) == Seq::<u8>::empty(),
{
    reveal_with_fuel(written, 6);
    assert(written(teardown(saved)) =~= Seq::<u8>::empty());
    assert(written(restore_actions(saved)) =~= Seq::<u8>::empty());
}

proof fn lemma_step_written<A>(s: SessionView<A>, e: EventView<A>)
    ensures
        step(s, e).0.sent == s.sent + written(step(s, e).1),
{
    reveal_with_fuel(written, 3);
    let t = step(s, e);
    lemma_shutdown_writes_nothing(s.saved);
    if t.1.len() == 0 {
        assert(written(t.1) =~= Seq::<u8>::empty());
    }
    assert(t.0.sent =~= s.sent + written(t.1));
}

proof fn lemma_run_tracks<A>(s: SessionView<A>, evs: Seq<EventView<A>>, t0: A, raw: A, term: A)
    requires
        tracks(s, t0, raw, term),
        captures_read(evs, t0),
    ensures
        tracks(run(s, evs).0, t0, raw, terminal_after(term, raw, run(s, evs).1)),
    decreases evs.len(),
{
    if evs.len() > 0 {
        let t = step(s, evs[0]);
        assert(evs[0] matches EventView::Captured(a) ==> a == t0);
        lemma_step_tracks(s, evs[0], t0, raw, term);
        let rest = evs.drop_first();
        assert forall|i: int| 0 <= i < rest.len() implies (#[trigger] rest[i] matches EventView::Captured(
            a,
        ) ==> a == t0) by {
            assert(rest[i] == evs[i + 1]);
        }
        lemma_run_tracks(t.0, rest, t0, raw, terminal_after(term, raw, t.1));
        lemma_terminal_after_concat(term, raw, t.1, run(t.0, rest).1);
    }
}

/// A session that is not holding raw mode has left the terminal with the
/// attributes it had before the session began: after a stop (asked for, or
/// caused by end-of-file or a failure) and after a start that failed. Here
/// `t0` is what the terminal held before start (every capture reads it) and
/// `raw` whatever installing raw mode left.
pub proof fn lemma_terminal_restored<A>(shell: Seq<char>, t0: A, raw: A, evs: Seq<EventView<A>>)
    requires
        captures_read(evs, t0),
    ensures
        ({
            let r = run(initial::<A>(shell), evs);
            (r.0.phase == Phase::Idle || r.0.phase == Phase::Stopped) ==> terminal_after(
                t0,
                raw,
                r.1,
            ) == t0
        }),
{
    lemma_run_tracks(initial::<A>(shell), evs, t0, raw, t0);
}

/// The bytes written to the shell are exactly the bytes the session accepted
/// for sending, in the order they were sent, whatever else happens between.
pub proof fn lemma_written_is_sent<A>(s: SessionView<A>, evs: Seq<EventView<A>>)
    ensures
        run(s, evs).0.sent == s.sent + written(run(s, evs).1),
    decreases evs.len(),
{
    if evs.len() == 0 {
        assert(written(Seq::<ActionView<A>>::empty()) =~= Seq::<u8>::empty());
        assert(s.sent + Seq::<u8>::empty() =~= s.sent);
    } else {
        let t = step(s, evs[0]);
        lemma_step_written(s, evs[0]);
        lemma_written_is_sent(t.0, evs.drop_first());
        lemma_written_concat(t.1, run(t.0, evs.drop_first()).1);
        assert(s.sent + (written(t.1) + written(run(t.0, evs.drop_first()).1)) =~= (s.sent
            + written(t.1)) + written(run(t.0, evs.drop_first()).1));
    }
}

/// An active session forwards every chunk sent to it: the shell is written
/// their concatenation, with nothing lost, added or reordered, and the
/// session stays active.
pub proof fn lemma_sends_in_order<A>(s: SessionView<A>, chunks: Seq<Seq<u8>>)
    requires
        s.phase == Phase::Active,
    ensures
        run(s, sends::<A>(chunks)).0.phase == Phase::Active,
        written(run(s, sends::<A>(chunks)).1) == chunks.flatten(),
        run(s, sends::<A>(chunks)).0.sent == s.sent + chunks.flatten(),
    decreases chunks.len(),
{
    reveal_with_fuel(written, 2);
    let evs = sends::<A>(chunks);
    if chunks.len() == 0 {
        assert(written(Seq::<ActionView<A>>::empty()) =~= Seq::<u8>::empty());
        assert(s.sent + Seq::<u8>::empty() =~= s.sent);
    } else {
        let t = step(s, evs[0]);
        assert(evs[0] == EventView::<A>::Send(chunks[0]));
        assert(evs.drop_first() =~= sends::<A>(chunks.drop_first()));
        lemma_sends_in_order(t.0, chunks.drop_first());
        let rest = run(t.0, evs.drop_first());
        lemma_written_concat(t.1, rest.1);
        assert(written(t.1) =~= chunks[0]);
        assert(t.0.sent + chunks.drop_first().flatten() =~= s.sent + chunks.flatten());
    }
}

proof fn lemma_stopped_stays<A>(s: SessionView<A>, evs: Seq<EventView<A>>)
    requires
        s.phase == Phase::Stopped,
    ensures
        run(s, evs).0.phase == Phase::Stopped,
    decreases evs.len(),
{
    if evs.len() > 0 {
        lemma_stopped_stays(step(s, evs[0]).0, evs.drop_first());
    }
}

/// End-of-file on an active session stops it with no error and no request
/// to stop: the shutdown sequence runs, raw mode is given up, and from then
/// on, whatever happens, every send fails with `SessionClosed` and writes
/// nothing.
pub proof fn lemma_eof_stops<A>(
    s: SessionView<A>,
    later: Seq<EventView<A>>,
    bytes: Seq<u8>,
)
    requires
        s.phase == Phase::Active,
    ensures
        step(s, EventView::Eof).0.phase == Phase::Stopped,
        step(s, EventView::Eof).0.saved is None,
        step(s, EventView::Eof).1 == teardown(s.saved),
        step(s, EventView::Eof).2 is None,
        ({
            let after = run(step(s, EventView::Eof).0, later).0;
            &&& step(after, EventView::Send(bytes)).2 == Some(SessionError::SessionClosed)
            &&& step(after, EventView::Send(bytes)).1 == Seq::<ActionView<A>>::empty()
            &&& step(after, EventView::Send(bytes)).0.sent == after.sent
        }),
{
    lemma_stopped_stays(step(s, EventView::Eof).0, later);
}

/// Stopping never reports an error, and stopping again changes nothing and
/// asks for nothing.
pub proof fn lemma_stop_twice<A>(s: SessionView<A>)
    ensures
        step(s, EventView::Stop).2 is None,
        ({
            let s1 = step(s, EventView::Stop).0;
            step(s1, EventView::Stop) == (s1, Seq::<ActionView<A>>::empty(), None::<SessionError>)
        }),
{
}

/// The bytes handed to the consumer by the actions, in order.
pub open spec fn delivered<A>(acts: Seq<ActionView<A>>) -> Seq<u8>
    decreases acts.len(),
{
    if acts.len() == 0 {
        Seq::empty()
    } else {
        let head = match acts[0] {
            ActionView::Deliver(b) => b,
            _ => Seq::empty(),
        };
        head + delivered(acts.drop_first())
    }
}

/// One output event for each chunk the relay read, in order.
pub open spec fn outputs<A>(chunks: Seq<Seq<u8>>) -> Seq<EventView<A>> {
    chunks.map_values(|c: Seq<u8>| EventView::<A>::Output(c))
}

proof fn lemma_delivered_concat<A>(a: Seq<ActionView<A>>, b: Seq<ActionView<A>>)
    ensures
        delivered(a + b) == delivered(a) + delivered(b),
    decreases a.len(),
{
    if a.len() == 0 {
        assert(a + b =~= b);
        assert(delivered(a) + delivered(b) =~= delivered(b));
    } else {
        assert((a + b).drop_first() =~= a.drop_first() + b);
        lemma_delivered_concat(a.drop_first(), b);
        let head = match a[0] {
            ActionView::Deliver(x) => x,
            _ => Seq::empty(),
        };
        assert(head + (delivered(a.drop_first()) + delivered(b)) =~= (head + delivered(
            a.drop_first(),
        )) + delivered(b));
    }
}

/// An active session hands every chunk of shell output to the consumer
/// unchanged and in the order it was read, and stays active.
pub proof fn lemma_output_in_order<A>(s: SessionView<A>, chunks: Seq<Seq<u8>>)
    requires
        s.phase == Phase::Active,
    ensures
        run(s, outputs::<A>(chunks)).0.phase == Phase::Active,
        delivered(run(s, outputs::<A>(chunks)).1) == chunks.flatten(),
        run(s, outputs::<A>(chunks)).0.delivered == s.delivered + chunks.flatten(),
    decreases chunks.len(),
{
    reveal_with_fuel(delivered, 2);
    let evs = outputs::<A>(chunks);
    if chunks.len() == 0 {
        assert(delivered(Seq::<ActionView<A>>::empty()) =~= Seq::<u8>::empty());
        assert(s.delivered + Seq::<u8>::empty() =~= s.delivered);
    } else {
        let t = step(s, evs[0]);
        assert(evs[0] == EventView::<A>::Output(chunks[0]));
        assert(evs.drop_first() =~= outputs::<A>(chunks.drop_first()));
        lemma_output_in_order(t.0, chunks.drop_first());
        let rest = run(t.0, evs.drop_first());
        lemma_delivered_concat(t.1, rest.1);
        assert(delivered(t.1) =~= chunks[0]);
        assert(t.0.delivered + chunks.drop_first().flatten() =~= s.delivered + chunks.flatten());
    }
}

/// Installations of raw mode less restorations of saved attributes, over the actions.
pub open spec fn raw_balance<A>(acts: Seq<ActionView<A>>) -> int
    decreases acts.len(),
{
    if acts.len() == 0 {
        0
    } else {
        let head: int = match acts[0] {
            ActionView::InstallRaw => 1,
            ActionView::RestoreAttributes(_) => -1,
            _ => 0,
        };
        head + raw_balance(acts.drop_first())
    }
}

proof fn lemma_raw_balance_concat<A>(a: Seq<ActionView<A>>, b: Seq<ActionView<A>>)
    ensures
        raw_balance(a + b) == raw_balance(a) + raw_balance(b),
    decreases a.len(),
{
    if a.len() == 0 {
        assert(a + b =~= b);
    } else {
        assert((a + b).drop_first() =~= a.drop_first() + b);
        lemma_raw_balance_concat(a.drop_first(), b);
    }
}

proof fn lemma_step_balance<A>(s: SessionView<A>, e: EventView<A>)
    requires
        s.wf(),
    ensures
        raw_balance(step(s, e).1) == (if step(s, e).0.saved is Some {
            1int
        } else {
            0
        }) - (if s.saved is Some {
            1int
        } else {
            0
        }),
{
    reveal_with_fuel(raw_balance, 6);
}

proof fn lemma_run_balance<A>(s: SessionView<A>, evs: Seq<EventView<A>>)
    requires
        s.wf(),
    ensures
        run(s, evs).0.wf(),
        raw_balance(run(s, evs).1) == (if run(s, evs).0.saved is Some {
            1int
        } else {
            0
        }) - (if s.saved is Some {
            1int
        } else {
            0
        }),
    decreases evs.len(),
{
    if evs.len() == 0 {
    } else {
        let t = step(s, evs[0]);
        lemma_step_balance(s, evs[0]);
        lemma_run_balance(t.0, evs.drop_first());
        lemma_raw_balance_concat(t.1, run(t.0, evs.drop_first()).1);
    }
}

/// Saved attributes are put back exactly once for each time raw mode was
/// installed: after any events, a session has asked for one installation
/// more than restorations while it holds raw mode, and as many otherwise.
pub proof fn lemma_restored_once<A>(shell: Seq<char>, evs: Seq<EventView<A>>)
    ensures
        run(initial::<A>(shell), evs).0.wf(),
        raw_balance(run(initial::<A>(shell), evs).1) == (if run(initial::<A>(shell), evs).0.saved is Some {
            1int
        } else {
            0
        }),
{
    lemma_run_balance(initial::<A>(shell), evs);
}

} // verus!
