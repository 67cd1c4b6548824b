use vstd::prelude::*;
use crate::event::{lemma_without_kind_empties, lemma_without_kind_keeps_others, EventKind};
use crate::game::{halted, in_stage, plan, plan_upto, run_seq, systems_in, tagged, GameView};
use crate::world::{InputView, WorldView};
use crate::stage::{lemma_stage_at_rank, stage_at, Stage, STAGE_COUNT};
use crate::system::System;

verus! {

/// Adding `fs` to `stage` extends that stage's run list by exactly `fs`, in
/// order, and leaves the run list of every other stage as it was.
pub proof fn lemma_add_systems_appends(regs: Seq<(Stage, System)>, stage: Stage, fs: Seq<System>, other: Stage)
    ensures
        systems_in(regs + tagged(stage, fs), stage) == systems_in(regs, stage) + fs,
        other != stage ==> systems_in(regs + tagged(stage, fs), other) == systems_in(regs, other),
    decreases fs.len(),
{
    if fs.len() == 0 {
        assert(regs + tagged(stage, fs) =~= regs);
        assert(systems_in(regs, stage) + fs =~= systems_in(regs, stage));
    } else {
        let init = fs.drop_last();
        lemma_add_systems_appends(regs, stage, init, other);
        let whole = regs + tagged(stage, fs);
        assert(whole.drop_last() =~= regs + tagged(stage, init));
        assert(whole.last() == (stage, fs.last()));
        assert(systems_in(regs, stage) + fs =~= (systems_in(regs, stage) + init).push(fs.last()));
    }
}

/// The game after each `(stage, systems)` call of `calls`, in turn.
pub open spec fn after_calls(g: GameView, calls: Seq<(Stage, Seq<System>)>) -> GameView
    decreases calls.len(),
{
    if calls.len() == 0 {
        g
    } else {
        after_calls(g, calls.drop_last()).with_systems(calls.last().0, calls.last().1)
    }
}

/// The systems that the calls of `calls` bound to stage `s`, call after call.
pub open spec fn appended_to(calls: Seq<(Stage, Seq<System>)>, s: Stage) -> Seq<System>
    decreases calls.len(),
{
    if calls.len() == 0 {
        Seq::empty()
    } else {
        let rest = appended_to(calls.drop_last(), s);
        if calls.last().0 == s {
            rest + calls.last().1
        } else {
            rest
        }
    }
}

/// After any sequence of calls that add systems, the run list of each stage is
/// what it held before followed by the systems given for that stage, in call
/// order.
pub proof fn lemma_add_systems_calls(g: GameView, calls: Seq<(Stage, Seq<System>)>, s: Stage)
    ensures
        systems_in(after_calls(g, calls).regs, s) == systems_in(g.regs, s) + appended_to(calls, s),
    decreases calls.len(),
{
    if calls.len() == 0 {
        assert(systems_in(g.regs, s) + Seq::<System>::empty() =~= systems_in(g.regs, s));
    } else {
        lemma_add_systems_calls(g, calls.drop_last(), s);
        let before = after_calls(g, calls.drop_last());
        lemma_add_systems_appends(before.regs, calls.last().0, calls.last().1, s);
        if calls.last().0 == s {
            assert(systems_in(g.regs, s) + appended_to(calls, s) =~= systems_in(g.regs, s)
                + appended_to(calls.drop_last(), s) + calls.last().1);
        }
    }
}

proof fn lemma_in_stage_only(regs: Seq<(Stage, System)>, s: Stage)
    ensures
        forall|i: int| 0 <= i < in_stage(regs, s).len() ==> (#[trigger] in_stage(regs, s)[i]).0 == s,
    decreases regs.len(),
{
    if regs.len() > 0 {
        lemma_in_stage_only(regs.drop_last(), s);
    }
}

proof fn lemma_in_stage_concat(a: Seq<(Stage, System)>, b: Seq<(Stage, System)>, s: Stage)
    ensures
        in_stage(a + b, s) == in_stage(a, s) + in_stage(b, s),
    decreases b.len(),
{
    if b.len() == 0 {
        assert(a + b =~= a);
        assert(in_stage(a, s) + in_stage(b, s) =~= in_stage(a, s));
    } else {
        lemma_in_stage_concat(a, b.drop_last(), s);
        assert((a + b).drop_last() =~= a + b.drop_last());
        assert((a + b).last() == b.last());
        if b.last().0 == s {
            assert(in_stage(a, s) + in_stage(b, s) =~= (in_stage(a, s) + in_stage(b.drop_last(), s)).push(b.last()));
        }
    }
}

proof fn lemma_in_stage_uniform(q: Seq<(Stage, System)>, s: Stage, t: Stage)
    requires
        forall|i: int| 0 <= i < q.len() ==> (#[trigger] q[i]).0 == s,
    ensures
        in_stage(q, t) == (if s == t { q } else { Seq::<(Stage, System)>::empty() }),
    decreases q.len(),
{
    if q.len() > 0 {
        let init = q.drop_last();
        assert forall|i: int| 0 <= i < init.len() implies (#[trigger] init[i]).0 == s by {
            assert(init[i] == q[i]);
        }
        lemma_in_stage_uniform(init, s, t);
        assert(q.last() == q[q.len() - 1]);
        if s == t {
            assert(init.push(q.last()) =~= q);
        }
    }
}

proof fn lemma_plan_upto(regs: Seq<(Stage, System)>, n: nat, t: Stage)
    requires
        n <= STAGE_COUNT,
    ensures
        forall|i: int| 0 <= i < plan_upto(regs, n).len() ==> (#[trigger] plan_upto(regs, n)[i]).0.rank() < n,
        forall|i: int, j: int| 0 <= i < j < plan_upto(regs, n).len()
            ==> (#[trigger] plan_upto(regs, n)[i]).0.rank() <= (#[trigger] plan_upto(regs, n)[j]).0.rank(),
        in_stage(plan_upto(regs, n), t) == (if t.rank() < n { in_stage(regs, t) } else { Seq::<(Stage, System)>::empty() }),
    decreases n,
{
    if n > 0 {
        let m = (n - 1) as nat;
        lemma_plan_upto(regs, m, t);
        let p = plan_upto(regs, m);
        let s = stage_at(m);
        let q = in_stage(regs, s);
        lemma_in_stage_only(regs, s);
        assert(s.rank() == m);
        assert forall|i: int| 0 <= i < (p + q).len() implies (#[trigger] (p + q)[i]).0.rank() < n by {
            if i < p.len() {
                assert((p + q)[i] == p[i]);
            } else {
                assert((p + q)[i] == q[i - p.len()]);
            }
        }
        assert forall|i: int, j: int| 0 <= i < j < (p + q).len()
            implies (#[trigger] (p + q)[i]).0.rank() <= (#[trigger] (p + q)[j]).0.rank() by {
            if j < p.len() {
                assert((p + q)[i] == p[i]);
                assert((p + q)[j] == p[j]);
            } else if i < p.len() {
                assert((p + q)[i] == p[i]);
                assert((p + q)[j] == q[j - p.len()]);
            } else {
                assert((p + q)[i] == q[i - p.len()]);
                assert((p + q)[j] == q[j - p.len()]);
            }
        }
        lemma_in_stage_concat(p, q, t);
        lemma_in_stage_uniform(q, s, t);
        lemma_stage_at_rank(t);
        if t.rank() < m {
            assert(in_stage(regs, t) + Seq::<(Stage, System)>::empty() =~= in_stage(regs, t));
        } else if t.rank() == m {
            assert(Seq::<(Stage, System)>::empty() + in_stage(regs, t) =~= in_stage(regs, t));
        } else {
            assert(Seq::<(Stage, System)>::empty() + Seq::<(Stage, System)>::empty() =~= Seq::<(Stage, System)>::empty());
        }
    }
}

/// Whatever systems were registered, a frame runs the stages in their declared
/// order: the systems of an earlier stage all run before those of a later one,
/// and each stage runs exactly its own registrations, in registration order.
pub proof fn lemma_frame_stage_order(regs: Seq<(Stage, System)>, t: Stage)
    ensures
        forall|i: int, j: int| 0 <= i < j < plan(regs).len()
            ==> (#[trigger] plan(regs)[i]).0.rank() <= (#[trigger] plan(regs)[j]).0.rank(),
        in_stage(plan(regs), t) == in_stage(regs, t),
{
    lemma_plan_upto(regs, STAGE_COUNT as nat, t);
}

/// Registering an event kind twice is the same as registering it once; its
/// queue then exists and is empty, and the queues of the other kinds, with the
/// events they hold, are as they were.
pub proof fn lemma_register_event_idempotent(g: GameView, k: EventKind, other: EventKind)
    requires
        g.world.wf(),
    ensures
        g.with_event(k).with_event(k) == g.with_event(k),
        g.with_event(k).world.queue(k) == Some(Seq::<crate::event::Event>::empty()),
        other != k ==> g.with_event(k).world.queue(other) == g.world.queue(other),
{
    lemma_without_kind_empties(g.world.events, k);
    let once = g.with_event(k);
    let twice = once.with_event(k);
    assert(twice.world.registered =~= once.world.registered);
    assert(twice.world == once.world);
    if other != k {
        lemma_without_kind_keeps_others(g.world.events, k, other);
        assert(other.slot() != k.slot());
    }
}

/// Once a system has asked to end the process, no later system of the frame
/// runs: the world and the requests stay as they were at that point.
pub proof fn lemma_exit_stops_the_frame(
    w: WorldView,
    p: Seq<(Stage, System)>,
    rest: Seq<(Stage, System)>,
    input: InputView,
)
    requires
        halted(run_seq(w, p, input).1),
    ensures
        run_seq(w, p + rest, input) == run_seq(w, p, input),
    decreases rest.len(),
{
    if rest.len() == 0 {
        assert(p + rest =~= p);
    } else {
        lemma_exit_stops_the_frame(w, p, rest.drop_last(), input);
        assert((p + rest).drop_last() =~= p + rest.drop_last());
    }
}

} // verus!
