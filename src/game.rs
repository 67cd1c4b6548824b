use vstd::prelude::*;
use crate::event::{Event, EventKind};
use crate::stage::{stage_at, Stage, STAGE_COUNT};
use crate::system::{run_system, step, System};
use crate::world::{
    empty_world, with_queue, with_resource, written, Action, CirclePosition, DeltaTime, Input,
    InputView, PlayerSprite, Resource, World, WorldView,
};

verus! {

/// A game as its contracts see it: the world, and every system registration
/// in the order it was made.
pub ghost struct GameView {
    pub world: WorldView,
    pub regs: Seq<(Stage, System)>,
}

impl GameView {
    /// The game after the queue of kind `k` was created.
    pub open spec fn with_event(self, k: EventKind) -> GameView {
        GameView { world: with_queue(self.world, k), ..self }
    }

    /// The game after `fs` were added to `stage`.
    pub open spec fn with_systems(self, stage: Stage, fs: Seq<System>) -> GameView {
        GameView { regs: self.regs + tagged(stage, fs), ..self }
    }
}

/// `fs`, each bound to `stage`.
pub open spec fn tagged(stage: Stage, fs: Seq<System>) -> Seq<(Stage, System)> {
    Seq::new(fs.len(), |i: int| (stage, fs[i]))
}

/// The registrations of `regs` that belong to stage `s`, in registration order.
pub open spec fn in_stage(regs: Seq<(Stage, System)>, s: Stage) -> Seq<(Stage, System)>
    decreases regs.len(),
{
    if regs.len() == 0 {
        Seq::empty()
    } else {
        let rest = in_stage(regs.drop_last(), s);
        if regs.last().0 == s {
            rest.push(regs.last())
        } else {
            rest
        }
    }
}

/// The systems that stage `s` runs, in registration order.
pub open spec fn systems_in(regs: Seq<(Stage, System)>, s: Stage) -> Seq<System>
    decreases regs.len(),
{
    if regs.len() == 0 {
        Seq::empty()
    } else {
        let rest = systems_in(regs.drop_last(), s);
        if regs.last().0 == s {
            rest.push(regs.last().1)
        } else {
            rest
        }
    }
}

/// The registrations that the first `n` stages of a frame run, stage by stage.
pub open spec fn plan_upto(regs: Seq<(Stage, System)>, n: nat) -> Seq<(Stage, System)>
    decreases n,
{
    if n == 0 {
        Seq::empty()
    } else {
        plan_upto(regs, (n - 1) as nat) + in_stage(regs, stage_at((n - 1) as nat))
    }
}

/// What a frame runs: every stage in frame order, each stage's systems in
/// registration order.
pub open spec fn plan(regs: Seq<(Stage, System)>) -> Seq<(Stage, System)> {
    plan_upto(regs, STAGE_COUNT as nat)
}

/// Whether the host was told to end the process.
pub open spec fn halted(a: Seq<Action>) -> bool {
    a.len() > 0 && a.last() is Exit
}

/// The world and the requests to the host after running the systems of `p`
/// in turn; nothing runs after a system that ends the process.
pub open spec fn run_seq(w: WorldView, p: Seq<(Stage, System)>, input: InputView) -> (WorldView, Seq<Action>)
    decreases p.len(),
{
    if p.len() == 0 {
        (w, Seq::empty())
    } else {
        let (w1, a1) = run_seq(w, p.drop_last(), input);
        if halted(a1) {
            (w1, a1)
        } else {
            let (w2, a2) = step(w1, p.last().1, input);
            (w2, a1 + a2)
        }
    }
}

/// One frame: install the frame time, run the plan, and drop the events that
/// are left.
pub open spec fn frame(g: GameView, dt: u32, input: InputView) -> (GameView, Seq<Action>) {
    let w0 = with_resource(g.world, Resource::Delta(DeltaTime(dt)));
    let (w1, acts) = run_seq(w0, plan(g.regs), input);
    (GameView { world: WorldView { events: Seq::empty(), ..w1 }, regs: g.regs }, acts)
}

/// A game: its world and the systems registered into its stages.
pub struct Game {
    world: World,
    systems: Vec<(Stage, System)>,
}

impl View for Game {
    type V = GameView;

    closed spec fn view(&self) -> GameView {
        GameView { world: self.world@, regs: self.systems@ }
    }
}

/// A setup bundle: it registers the events, resources and systems of one
/// feature into a game.
pub trait Plugin {
    /// The game after this plugin was applied to `g`.
    spec fn applied(&self, g: GameView) -> GameView;

    fn apply(&self, game: &mut Game)
        requires
            old(game).wf(),
        ensures
            final(game).wf(),
            final(game)@ == self.applied(old(game)@),
    ;
}

proof fn lemma_in_stage_push(regs: Seq<(Stage, System)>, x: (Stage, System), s: Stage)
    ensures
        in_stage(regs.push(x), s) == (if x.0 == s { in_stage(regs, s).push(x) } else { in_stage(regs, s) }),
        systems_in(regs.push(x), s) == (if x.0 == s { systems_in(regs, s).push(x.1) } else { systems_in(regs, s) }),
{
    assert(regs.push(x).drop_last() =~= regs);
}

/// No system changes the frame time or which queues exist.
pub proof fn lemma_run_seq_keeps_time(w: WorldView, p: Seq<(Stage, System)>, input: InputView)
    ensures
        run_seq(w, p, input).0.delta == w.delta,
        run_seq(w, p, input).0.registered == w.registered,
    decreases p.len(),
{
    if p.len() > 0 {
        lemma_run_seq_keeps_time(w, p.drop_last(), input);
    }
}

impl Game {
    pub open spec fn wf(&self) -> bool {
        self@.world.wf()
    }

    /// A game with an empty world and no systems in any stage.
    pub fn new() -> (r: Game)
        ensures
            r.wf(),
            r@ == (GameView { world: empty_world(), regs: Seq::empty() }),
    {
        Game { world: World::new(), systems: Vec::new() }
    }

    /// Creates the queue of events of kind `k`, empty, in place of any earlier one.
    pub fn register_event(&mut self, k: EventKind)
        requires
            old(self).wf(),
        ensures
            final(self).wf(),
            final(self)@ == old(self)@.with_event(k),
    {
        self.world.insert_queue(k);
    }

    /// Installs a resource, replacing the one of its type.
    pub fn add_resource(&mut self, r: Resource)
        requires
            old(self).wf(),
        ensures
            final(self).wf(),
            final(self)@ == (GameView { world: with_resource(old(self)@.world, r), ..old(self)@ }),
    {
        self.world.insert_resource(r);
    }

    /// Appends `systems` to the run list of `stage`, in the order given.
    pub fn add_systems(&mut self, stage: Stage, systems: Vec<System>)
        requires
            old(self).wf(),
        ensures
            final(self).wf(),
            final(self)@ == old(self)@.with_systems(stage, systems@),
    {
        let ghost start = self.systems@;
        let mut i: usize = 0;
        while i < systems.len()
            invariant
                i <= systems@.len(),
                self.systems@ =~= start + tagged(stage, systems@.take(i as int)),
                self.world@ == old(self).world@,
            decreases systems@.len() - i,
        {
            self.systems.push((stage, systems[i]));
            i = i + 1;
        }
        assert(systems@.take(i as int) =~= systems@);
    }

    /// Applies a plugin's registrations to this game.
    pub fn add_plugin<P: Plugin>(&mut self, plugin: P)
        requires
            old(self).wf(),
        ensures
            final(self).wf(),
            final(self)@ == plugin.applied(old(self)@),
    {
        plugin.apply(self);
    }

    /// The systems that `stage` runs, in registration order.
    pub fn systems_in(&self, stage: Stage) -> (r: Vec<System>)
        ensures
            r@ == systems_in(self@.regs, stage),
    {
        let mut out: Vec<System> = Vec::new();
        let mut i: usize = 0;
        while i < self.systems.len()
            invariant
                i <= self.systems@.len(),
                out@ == systems_in(self.systems@.take(i as int), stage),
            decreases self.systems@.len() - i,
        {
            proof {
                assert(self.systems@.take(i as int + 1) =~= self.systems@.take(i as int).push(self.systems@[i as int]));
                lemma_in_stage_push(self.systems@.take(i as int), self.systems@[i as int], stage);
            }
            if self.systems[i].0 == stage {
                out.push(self.systems[i].1);
            }
            i = i + 1;
        }
        assert(self.systems@.take(i as int) =~= self.systems@);
        out
    }

    /// Runs one frame that took `dt` microseconds, with the keyboard as `input`
    /// shows it, and returns what the systems ask of the host, in order.
    pub fn run(&mut self, dt: u32, input: &Input) -> (r: Vec<Action>)
        requires
            old(self).wf(),
        ensures
            final(self).wf(),
            (final(self)@, r@) == frame(old(self)@, dt, input@),
            final(self)@.world.delta == Some(DeltaTime(dt)),
            final(self)@.world.events.len() == 0,
    {
        let ghost regs = self.systems@;
        self.world.insert_resource(Resource::Delta(DeltaTime(dt)));
        let ghost w0 = self.world@;
        let mut acts: Vec<Action> = Vec::new();
        let mut stopped = false;
        let mut si: usize = 0;
        while si < STAGE_COUNT
            invariant
                si <= STAGE_COUNT,
                self.systems@ == regs,
                self.world@.wf(),
                (self.world@, acts@) == run_seq(w0, plan_upto(regs, si as nat), input@),
                stopped == halted(acts@),
            decreases STAGE_COUNT - si,
        {
            let stage = Stage::from_index(si);
            let mut j: usize = 0;
            while j < self.systems.len()
                invariant
                    si < STAGE_COUNT,
                    stage == stage_at(si as nat),
                    j <= regs.len(),
                    self.systems@ == regs,
                    self.world@.wf(),
                    (self.world@, acts@) == run_seq(
                        w0,
                        plan_upto(regs, si as nat) + in_stage(regs.take(j as int), stage),
                        input@,
                    ),
                    stopped == halted(acts@),
                decreases regs.len() - j,
            {
                let (s, sys) = self.systems[j];
                let ghost before = plan_upto(regs, si as nat) + in_stage(regs.take(j as int), stage);
                proof {
                    assert(regs.take(j as int + 1) =~= regs.take(j as int).push(regs[j as int]));
                    lemma_in_stage_push(regs.take(j as int), regs[j as int], stage);
                }
                if s == stage {
                    proof {
                        let after = before.push((s, sys));
                        assert(plan_upto(regs, si as nat) + in_stage(regs.take(j as int), stage).push((s, sys)) =~= after);
                        assert(after.drop_last() =~= before);
                    }
                    if !stopped {
                        let mut more = run_system(&mut self.world, sys, input);
                        if more.len() > 0 {
                            if let Action::Exit(_) = more[more.len() - 1] {
                                stopped = true;
                            }
                        }
                        proof {
                            if more@.len() > 0 {
                                assert((acts@ + more@).last() == more@.last());
                            } else {
                                assert(acts@ + more@ =~= acts@);
                            }
                        }
                        acts.append(&mut more);
                    }
                }
                j = j + 1;
            }
            assert(regs.take(j as int) =~= regs);
            si = si + 1;
        }
        self.world.clear_events();
        proof {
            lemma_run_seq_keeps_time(w0, plan(regs), input@);
        }
        acts
    }

    /// The player sprite, if one was installed.
    pub fn player(&self) -> (r: Option<PlayerSprite>)
        ensures
            r == self@.world.player,
    {
        self.world.player()
    }

    /// The circle entities, in spawn order.
    pub fn circles(&self) -> (r: &Vec<CirclePosition>)
        ensures
            r@ == self@.world.circles,
    {
        self.world.circles()
    }

    /// The pending events of kind `k`, if its queue exists.
    pub fn queue(&self, k: EventKind) -> (r: Option<Vec<Event>>)
        requires
            self.wf(),
        ensures
            r matches Some(q) ==> self@.world.queue(k) == Some(q@),
            r is None ==> self@.world.queue(k) is None,
    {
        self.world.queue(k)
    }

    /// Writes an event into its queue; one of a kind without a queue is dropped.
    pub fn send(&mut self, e: Event)
        requires
            old(self).wf(),
        ensures
            final(self).wf(),
            final(self)@ == (GameView { world: written(old(self)@.world, e), ..old(self)@ }),
    {
        self.world.write(e);
    }

    /// The current frame time, if a frame has run.
    pub fn delta_time(&self) -> (r: Option<DeltaTime>)
        ensures
            r == self@.world.delta,
    {
        self.world.delta()
    }
}

} // verus!
