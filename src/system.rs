use vstd::prelude::*;
use crate::event::{Direction, Event, EventKind};
use crate::world::{
    clamp64, drain, has_key, shifted, written, Action, CirclePosition, Input, InputView, Key,
    PlayerSprite, World, WorldView, CIRCLE_SPAWN_X, CIRCLE_SPAWN_Y, GRAVITY, PLAYER_SPEED,
};

verus! {

/// The systems of the game: each is one unit of update logic, run once per
/// frame in the stage it was added to.
#[derive(Clone, Copy, Debug, PartialEq, Eq, Structural, Hash)]
pub enum System {
    /// Writes an exit event when Escape is pressed.
    ExitEvaluator,
    /// Ends the process on an exit event.
    ExitConsumer,
    /// Writes a create event when E is pressed.
    CircleCreator,
    /// Spawns one circle when create events are pending.
    CircleCreateConsumer,
    /// Writes a destroy event when R is pressed.
    CircleDestroyer,
    /// Removes every circle when destroy events are pending.
    CircleDestroyConsumer,
    /// Writes a gravity event, every frame.
    GravityEmitter,
    /// Moves every circle up by each gravity event's pull over the frame time.
    CircleGravityApplier,
    /// Draws every circle.
    CircleRenderer,
    /// Turns the movement keys into movement events.
    MovementInput,
    /// Applies movement events to the player sprite.
    MovementApplier,
    /// Points the camera at the player.
    UpdateCameraTarget,
    /// Draws the player.
    RenderPlayer,
}

/// Each circle moved up by `amount` sub-pixel units.
pub open spec fn pull_all(c: Seq<CirclePosition>, amount: int) -> Seq<CirclePosition> {
    Seq::new(c.len(), |i: int| CirclePosition { x: c[i].x, y: clamp64(c[i].y - amount) as i64 })
}

/// The pull that a gravity event carries.
pub open spec fn strength(e: Event) -> int {
    match e {
        Event::Gravity(g) => g as int,
        _ => 0,
    }
}

/// The circles after each gravity event of `evs`, in turn, acted for `dt`.
pub open spec fn fall(c: Seq<CirclePosition>, evs: Seq<Event>, dt: int) -> Seq<CirclePosition>
    decreases evs.len(),
{
    if evs.len() == 0 {
        c
    } else {
        pull_all(fall(c, evs.drop_last(), dt), strength(evs.last()) * dt)
    }
}

/// The direction that a movement event carries.
pub open spec fn direction_of(e: Event) -> Direction {
    match e {
        Event::Moved(d) => d,
        _ => Direction::Stay,
    }
}

/// One movement of the player over `dt` microseconds, and what it asks of the
/// sprite.
pub open spec fn move_once(p: PlayerSprite, d: Direction, dt: int) -> (PlayerSprite, Seq<Action>) {
    let step = PLAYER_SPEED as int * dt;
    match d {
        Direction::Up => (
            PlayerSprite { animation: 0, playing: true, y: clamp64(p.y - step) as i64, ..p },
            seq![Action::SpritePlaying(true), Action::SpriteAnimation(0)],
        ),
        Direction::Down => (
            PlayerSprite { animation: 1, playing: true, y: clamp64(p.y + step) as i64, ..p },
            seq![Action::SpritePlaying(true), Action::SpriteAnimation(1)],
        ),
        Direction::Left => (
            PlayerSprite { animation: 2, playing: true, x: clamp64(p.x - step) as i64, ..p },
            seq![Action::SpritePlaying(true), Action::SpriteAnimation(2)],
        ),
        Direction::Right => (
            PlayerSprite { animation: 3, playing: true, x: clamp64(p.x + step) as i64, ..p },
            seq![Action::SpritePlaying(true), Action::SpriteAnimation(3)],
        ),
        Direction::Stay => (
            PlayerSprite { playing: false, ..p },
            seq![Action::SpritePlaying(false), Action::SpriteFrame(0)],
        ),
    }
}

/// The player after each movement event of `evs`, in turn, and what they ask
/// of the sprite.
pub open spec fn walk(p: PlayerSprite, evs: Seq<Event>, dt: int) -> (PlayerSprite, Seq<Action>)
    decreases evs.len(),
{
    if evs.len() == 0 {
        (p, Seq::empty())
    } else {
        let (p1, a1) = walk(p, evs.drop_last(), dt);
        let (p2, a2) = move_once(p1, direction_of(evs.last()), dt);
        (p2, a1 + a2)
    }
}

/// One draw per circle, in entity order.
pub open spec fn circle_draws(c: Seq<CirclePosition>) -> Seq<Action> {
    Seq::new(c.len(), |i: int| Action::DrawCircle { x: c[i].x, y: c[i].y })
}

/// The direction the held keys ask for: W, S, A, D in that order of precedence.
pub open spec fn intent(input: InputView) -> Direction {
    if input.down.contains(Key::W) {
        Direction::Up
    } else if input.down.contains(Key::S) {
        Direction::Down
    } else if input.down.contains(Key::A) {
        Direction::Left
    } else if input.down.contains(Key::D) {
        Direction::Right
    } else {
        Direction::Stay
    }
}

/// Whether a movement key was let go this frame.
pub open spec fn released_movement(input: InputView) -> bool {
    input.released.contains(Key::A) || input.released.contains(Key::D)
        || input.released.contains(Key::W) || input.released.contains(Key::S)
}

/// What one run of `sys` does to the world, and what it asks of the host.
pub open spec fn step(w: WorldView, sys: System, input: InputView) -> (WorldView, Seq<Action>) {
    match sys {
        System::ExitEvaluator => (
            if input.pressed.contains(Key::Escape) { written(w, Event::Exit) } else { w },
            Seq::empty(),
        ),
        System::ExitConsumer => {
            let (w1, evs) = drain(w, EventKind::Exit);
            (w1, if evs.len() > 0 { seq![Action::Exit(0)] } else { Seq::empty() })
        },
        System::CircleCreator => (
            if input.pressed.contains(Key::E) { written(w, Event::CreateCircle) } else { w },
            Seq::empty(),
        ),
        System::CircleCreateConsumer => {
            let (w1, evs) = drain(w, EventKind::CreateCircle);
            (
                if evs.len() > 0 {
                    WorldView {
                        circles: w1.circles.push(CirclePosition { x: CIRCLE_SPAWN_X, y: CIRCLE_SPAWN_Y }),
                        ..w1
                    }
                } else {
                    w1
                },
                Seq::empty(),
            )
        },
        System::CircleDestroyer => (
            if input.pressed.contains(Key::R) { written(w, Event::DestroyCircle) } else { w },
            Seq::empty(),
        ),
        System::CircleDestroyConsumer => {
            let (w1, evs) = drain(w, EventKind::DestroyCircle);
            (
                if evs.len() > 0 { WorldView { circles: Seq::empty(), ..w1 } } else { w1 },
                Seq::empty(),
            )
        },
        System::GravityEmitter => (written(w, Event::Gravity(GRAVITY)), Seq::empty()),
        System::CircleGravityApplier => {
            let (w1, evs) = drain(w, EventKind::Gravity);
            (WorldView { circles: fall(w1.circles, evs, w.dt()), ..w1 }, Seq::empty())
        },
        System::CircleRenderer => (w, circle_draws(w.circles)),
        System::MovementInput => {
            let w1 = written(w, Event::Moved(intent(input)));
            (
                if released_movement(input) { written(w1, Event::Moved(Direction::Stay)) } else { w1 },
                Seq::empty(),
            )
        },
        System::MovementApplier => match w.player {
            Some(p) => {
                let (w1, evs) = drain(w, EventKind::Movement);
                let (p1, acts) = walk(p, evs, w.dt());
                (WorldView { player: Some(p1), ..w1 }, acts)
            },
            None => (w, Seq::empty()),
        },
        System::UpdateCameraTarget => match w.player {
            Some(p) => (w, seq![Action::CameraTarget { x: p.x, y: p.y }]),
            None => (w, Seq::empty()),
        },
        System::RenderPlayer => match w.player {
            Some(p) => (w, seq![Action::DrawPlayer { x: p.x, y: p.y }]),
            None => (w, Seq::empty()),
        },
    }
}

/// The frame time installed in `world`, zero while there is none.
fn frame_time(world: &World) -> (r: u32)
    ensures
        r == world@.dt(),
{
    match world.delta() {
        Some(d) => d.0,
        None => 0,
    }
}

/// Each circle of `c` moved up by `amount` sub-pixel units.
pub fn pull_circles(c: &Vec<CirclePosition>, amount: i128) -> (r: Vec<CirclePosition>)
    requires
        0 <= amount <= 0x1_0000_0000_0000_0000,
    ensures
        r@ == pull_all(c@, amount as int),
{
    let mut out: Vec<CirclePosition> = Vec::new();
    let mut i: usize = 0;
    while i < c.len()
        invariant
            i <= c@.len(),
            0 <= amount <= 0x1_0000_0000_0000_0000,
            out@ =~= pull_all(c@.take(i as int), amount as int),
        decreases c@.len() - i,
    {
        let y = shifted(c[i].y, -amount);
        out.push(CirclePosition { x: c[i].x, y });
        i = i + 1;
    }
    assert(c@.take(i as int) =~= c@);
    out
}

/// One movement of the player over `dt` microseconds.
pub fn move_player(p: PlayerSprite, d: Direction, dt: u32) -> (r: (PlayerSprite, Vec<Action>))
    ensures
        (r.0, r.1@) == move_once(p, d, dt as int),
{
    let step: i128 = PLAYER_SPEED as i128 * dt as i128;
    assert(0 <= step <= 100 * 0xffff_ffff) by (nonlinear_arith)
        requires
            step == 100 * (dt as int),
            0 <= dt <= 0xffff_ffff,
    ;
    let r = match d {
        Direction::Up => (
            PlayerSprite { animation: 0, playing: true, y: shifted(p.y, -step), ..p },
            vec![Action::SpritePlaying(true), Action::SpriteAnimation(0)],
        ),
        Direction::Down => (
            PlayerSprite { animation: 1, playing: true, y: shifted(p.y, step), ..p },
            vec![Action::SpritePlaying(true), Action::SpriteAnimation(1)],
        ),
        Direction::Left => (
            PlayerSprite { animation: 2, playing: true, x: shifted(p.x, -step), ..p },
            vec![Action::SpritePlaying(true), Action::SpriteAnimation(2)],
        ),
        Direction::Right => (
            PlayerSprite { animation: 3, playing: true, x: shifted(p.x, step), ..p },
            vec![Action::SpritePlaying(true), Action::SpriteAnimation(3)],
        ),
        Direction::Stay => (
            PlayerSprite { playing: false, ..p },
            vec![Action::SpritePlaying(false), Action::SpriteFrame(0)],
        ),
    };
    assert(r.1@ =~= move_once(p, d, dt as int).1);
    r
}

/// A copy of the circles.
fn copy_circles(c: &Vec<CirclePosition>) -> (r: Vec<CirclePosition>)
    ensures
        r@ == c@,
{
    let mut out: Vec<CirclePosition> = Vec::new();
    let mut i: usize = 0;
    while i < c.len()
        invariant
            i <= c@.len(),
            out@ =~= c@.take(i as int),
        decreases c@.len() - i,
    {
        out.push(c[i]);
        i = i + 1;
    }
    assert(c@.take(i as int) =~= c@);
    out
}

/// The circles after each gravity event of `evs`, in turn, acted for `dt`.
pub fn apply_gravity(c: Vec<CirclePosition>, evs: &Vec<Event>, dt: u32) -> (r: Vec<CirclePosition>)
    ensures
        r@ == fall(c@, evs@, dt as int),
{
    let mut cur = c;
    let mut i: usize = 0;
    while i < evs.len()
        invariant
            i <= evs@.len(),
            cur@ == fall(c@, evs@.take(i as int), dt as int),
        decreases evs@.len() - i,
    {
        let g: u32 = match evs[i] {
            Event::Gravity(g) => g,
            _ => 0,
        };
        assert(0 <= (g as int) * (dt as int) <= 0xffff_ffff * 0xffff_ffff) by (nonlinear_arith)
            requires
                0 <= g <= 0xffff_ffff,
                0 <= dt <= 0xffff_ffff,
        ;
        let amount: i128 = g as i128 * dt as i128;
        proof {
            let t = evs@.take(i as int + 1);
            assert(t.drop_last() =~= evs@.take(i as int));
            assert(t.last() == evs@[i as int]);
        }
        cur = pull_circles(&cur, amount);
        i = i + 1;
    }
    assert(evs@.take(i as int) =~= evs@);
    cur
}

/// The player after each movement event of `evs`, in turn, and what they ask
/// of the sprite.
pub fn walk_player(p: PlayerSprite, evs: &Vec<Event>, dt: u32) -> (r: (PlayerSprite, Vec<Action>))
    ensures
        (r.0, r.1@) == walk(p, evs@, dt as int),
{
    let mut cur = p;
    let mut acts: Vec<Action> = Vec::new();
    let mut i: usize = 0;
    while i < evs.len()
        invariant
            i <= evs@.len(),
            (cur, acts@) == walk(p, evs@.take(i as int), dt as int),
        decreases evs@.len() - i,
    {
        let d = match evs[i] {
            Event::Moved(d) => d,
            _ => Direction::Stay,
        };
        proof {
            let t = evs@.take(i as int + 1);
            assert(t.drop_last() =~= evs@.take(i as int));
            assert(t.last() == evs@[i as int]);
        }
        let (next, mut more) = move_player(cur, d, dt);
        cur = next;
        acts.append(&mut more);
        i = i + 1;
    }
    assert(evs@.take(i as int) =~= evs@);
    (cur, acts)
}

/// One draw per circle, in entity order.
pub fn draw_circles(c: &Vec<CirclePosition>) -> (r: Vec<Action>)
    ensures
        r@ == circle_draws(c@),
{
    let mut out: Vec<Action> = Vec::new();
    let mut i: usize = 0;
    while i < c.len()
        invariant
            i <= c@.len(),
            out@ =~= circle_draws(c@.take(i as int)),
        decreases c@.len() - i,
    {
        out.push(Action::DrawCircle { x: c[i].x, y: c[i].y });
        i = i + 1;
    }
    assert(c@.take(i as int) =~= c@);
    out
}

/// The direction the held keys ask for.
pub fn read_intent(input: &Input) -> (r: Direction)
    ensures
        r == intent(input@),
{
    if has_key(&input.down, Key::W) {
        Direction::Up
    } else if has_key(&input.down, Key::S) {
        Direction::Down
    } else if has_key(&input.down, Key::A) {
        Direction::Left
    } else if has_key(&input.down, Key::D) {
        Direction::Right
    } else {
        Direction::Stay
    }
}

/// Runs one system on the world and returns what it asks of the host.
pub fn run_system(world: &mut World, sys: System, input: &Input) -> (r: Vec<Action>)
    requires
        old(world)@.wf(),
    ensures
        final(world)@.wf(),
        (final(world)@, r@) == step(old(world)@, sys, input@),
{
    let ghost w0 = world@;
    let r = match sys {
        System::ExitEvaluator => {
            if has_key(&input.pressed, Key::Escape) {
                world.write(Event::Exit);
            }
            Vec::new()
        },
        System::ExitConsumer => {
            let evs = world.drain(EventKind::Exit);
            if evs.len() > 0 {
                vec![Action::Exit(0)]
            } else {
                Vec::new()
            }
        },
        System::CircleCreator => {
            if has_key(&input.pressed, Key::E) {
                world.write(Event::CreateCircle);
            }
            Vec::new()
        },
        System::CircleCreateConsumer => {
            let evs = world.drain(EventKind::CreateCircle);
            if evs.len() > 0 {
                let mut c = copy_circles(world.circles());
                c.push(CirclePosition { x: CIRCLE_SPAWN_X, y: CIRCLE_SPAWN_Y });
                world.set_circles(c);
            }
            Vec::new()
        },
        System::CircleDestroyer => {
            if has_key(&input.pressed, Key::R) {
                world.write(Event::DestroyCircle);
            }
            Vec::new()
        },
        System::CircleDestroyConsumer => {
            let evs = world.drain(EventKind::DestroyCircle);
            if evs.len() > 0 {
                world.set_circles(Vec::new());
            }
            Vec::new()
        },
        System::GravityEmitter => {
            world.write(Event::Gravity(GRAVITY));
            Vec::new()
        },
        System::CircleGravityApplier => {
            let dt = frame_time(world);
            let evs = world.drain(EventKind::Gravity);
            let c = apply_gravity(copy_circles(world.circles()), &evs, dt);
            world.set_circles(c);
            Vec::new()
        },
        System::CircleRenderer => draw_circles(world.circles()),
        System::MovementInput => {
            let d = read_intent(input);
            world.write(Event::Moved(d));
            if has_key(&input.released, Key::A) || has_key(&input.released, Key::D)
                || has_key(&input.released, Key::W) || has_key(&input.released, Key::S) {
                world.write(Event::Moved(Direction::Stay));
            }
            Vec::new()
        },
        System::MovementApplier => match world.player() {
            Some(p) => {
                let dt = frame_time(world);
                let evs = world.drain(EventKind::Movement);
                let (p1, acts) = walk_player(p, &evs, dt);
                world.set_player(p1);
                acts
            },
            None => Vec::new(),
        },
        System::UpdateCameraTarget => match world.player() {
            Some(p) => vec![Action::CameraTarget { x: p.x, y: p.y }],
            None => Vec::new(),
        },
        System::RenderPlayer => match world.player() {
            Some(p) => vec![Action::DrawPlayer { x: p.x, y: p.y }],
            None => Vec::new(),
        },
    };
    proof {
        let (w1, a1) = step(w0, sys, input@);
        assert(world@ =~= w1);
        assert(r@ =~= a1);
    }
    r
}

} // verus!
