use vstd::prelude::*;
use crate::event::{of_kind, split_kind, without_kind, Event, EventKind, EVENT_KIND_COUNT};

verus! {

/// Sub-pixel units per screen pixel: positions are kept in millionths of a
/// pixel, so that a speed in pixels per second times a frame time in
/// microseconds is a distance in these units.
pub const UNITS_PER_PIXEL: i64 = 1000000;

/// The player's walking speed, in pixels per second.
pub const PLAYER_SPEED: u32 = 100;

/// The pull that the gravity system emits every frame, in pixels per second.
pub const GRAVITY: u32 = 40;

/// Where a new circle appears, in sub-pixel units.
pub const CIRCLE_SPAWN_X: i64 = 300000000;
pub const CIRCLE_SPAWN_Y: i64 = 350000000;

/// The time that the last frame took, in microseconds.
#[derive(Clone, Copy, Debug, PartialEq, Eq, Structural)]
pub struct DeltaTime(pub u32);

/// The player's sprite state: where it stands (sub-pixel units), which
/// animation row of the sprite sheet it shows, and whether that animation plays.
#[derive(Clone, Copy, Debug, PartialEq, Eq, Structural)]
pub struct PlayerSprite {
    pub x: i64,
    pub y: i64,
    pub animation: u32,
    pub playing: bool,
}

/// A circle entity's position, in sub-pixel units.
#[derive(Clone, Copy, Debug, PartialEq, Eq, Structural)]
pub struct CirclePosition {
    pub x: i64,
    pub y: i64,
}

/// A singleton value that systems share.
#[derive(Clone, Copy, Debug, PartialEq, Eq, Structural)]
pub enum Resource {
    Delta(DeltaTime),
    Player(PlayerSprite),
}

/// The keys that the systems look at.
#[derive(Clone, Copy, Debug, PartialEq, Eq, Structural, Hash)]
pub enum Key {
    W,
    A,
    S,
    D,
    E,
    R,
    Escape,
}

/// The keyboard as it stood at the start of a frame: the keys pressed this
/// frame, held down, and released this frame.
#[derive(Debug)]
pub struct Input {
    pub pressed: Vec<Key>,
    pub down: Vec<Key>,
    pub released: Vec<Key>,
}

pub ghost struct InputView {
    pub pressed: Seq<Key>,
    pub down: Seq<Key>,
    pub released: Seq<Key>,
}

impl View for Input {
    type V = InputView;

    open spec fn view(&self) -> InputView {
        InputView { pressed: self.pressed@, down: self.down@, released: self.released@ }
    }
}

/// What a frame asks of the host, in the order the systems asked it.
#[derive(Clone, Copy, Debug, PartialEq, Eq, Structural)]
pub enum Action {
    /// Draw a circle centred here (sub-pixel units).
    DrawCircle { x: i64, y: i64 },
    /// Point the camera at this spot (sub-pixel units).
    CameraTarget { x: i64, y: i64 },
    /// Draw the player's current sprite frame here, then advance its animation.
    DrawPlayer { x: i64, y: i64 },
    /// Start or stop the player's animation.
    SpritePlaying(bool),
    /// Switch the player's animation to this row.
    SpriteAnimation(u32),
    /// Show this frame of the player's animation.
    SpriteFrame(u32),
    /// End the process with this status, at once.
    Exit(i32),
}

/// The shared store: resources, circle entities, and the event queues.
pub ghost struct WorldView {
    pub delta: Option<DeltaTime>,
    pub player: Option<PlayerSprite>,
    pub circles: Seq<CirclePosition>,
    /// For each kind of event, by slot, whether its queue exists.
    pub registered: Seq<bool>,
    /// Pending events of all kinds, in the order they were written.
    pub events: Seq<Event>,
}

impl WorldView {
    pub open spec fn wf(self) -> bool {
        self.registered.len() == EVENT_KIND_COUNT
    }

    /// The queue of kind `k`, if it was registered.
    pub open spec fn queue(self, k: EventKind) -> Option<Seq<Event>> {
        if self.registered[k.slot() as int] {
            Some(of_kind(self.events, k))
        } else {
            None
        }
    }

    /// The frame time, zero while none was installed.
    pub open spec fn dt(self) -> int {
        match self.delta {
            Some(d) => d.0 as int,
            None => 0,
        }
    }
}

/// The world with no resources, entities or queues.
pub open spec fn empty_world() -> WorldView {
    WorldView {
        delta: None,
        player: None,
        circles: Seq::empty(),
        registered: Seq::new(EVENT_KIND_COUNT as nat, |i: int| false),
        events: Seq::empty(),
    }
}

/// Installs a resource, replacing the one of its type.
pub open spec fn with_resource(w: WorldView, r: Resource) -> WorldView {
    match r {
        Resource::Delta(d) => WorldView { delta: Some(d), ..w },
        Resource::Player(p) => WorldView { player: Some(p), ..w },
    }
}

/// Creates the queue of kind `k`, empty, in place of any earlier one.
pub open spec fn with_queue(w: WorldView, k: EventKind) -> WorldView {
    WorldView {
        registered: w.registered.update(k.slot() as int, true),
        events: without_kind(w.events, k),
        ..w
    }
}

/// Writes an event; one of a kind without a queue is dropped.
pub open spec fn written(w: WorldView, e: Event) -> WorldView {
    if w.registered[e.kind().slot() as int] {
        WorldView { events: w.events.push(e), ..w }
    } else {
        w
    }
}

/// Takes every pending event of kind `k` out of its queue.
pub open spec fn drain(w: WorldView, k: EventKind) -> (WorldView, Seq<Event>) {
    (WorldView { events: without_kind(w.events, k), ..w }, of_kind(w.events, k))
}

/// `v` held to the range of `i64`.
pub open spec fn clamp64(v: int) -> int {
    if v < i64::MIN {
        i64::MIN as int
    } else if v > i64::MAX {
        i64::MAX as int
    } else {
        v
    }
}

/// `pos + by`, held to the range of `i64`.
pub fn shifted(pos: i64, by: i128) -> (r: i64)
    requires
        -0x1_0000_0000_0000_0000 <= by <= 0x1_0000_0000_0000_0000,
    ensures
        r == clamp64(pos + by),
{
    let v: i128 = pos as i128 + by;
    if v < i64::MIN as i128 {
        i64::MIN
    } else if v > i64::MAX as i128 {
        i64::MAX
    } else {
        v as i64
    }
}

/// Whether `k` is among `keys`.
pub fn has_key(keys: &Vec<Key>, k: Key) -> (r: bool)
    ensures
        r == keys@.contains(k),
{
    let mut i: usize = 0;
    while i < keys.len()
        invariant
            i <= keys@.len(),
            forall|j: int| 0 <= j < i ==> keys@[j] != k,
        decreases keys@.len() - i,
    {
        if keys[i] == k {
            assert(keys@[i as int] == k);
            return true;
        }
        i = i + 1;
    }
    false
}

/// The store that the systems of a game share.
pub struct World {
    delta: Option<DeltaTime>,
    player: Option<PlayerSprite>,
    circles: Vec<CirclePosition>,
    registered: Vec<bool>,
    events: Vec<Event>,
}

impl View for World {
    type V = WorldView;

    closed spec fn view(&self) -> WorldView {
        WorldView {
            delta: self.delta,
            player: self.player,
            circles: self.circles@,
            registered: self.registered@,
            events: self.events@,
        }
    }
}

impl World {
    /// A world with no resources, entities or queues.
    pub fn new() -> (r: World)
        ensures
            r@ == empty_world(),
            r@.wf(),
    {
        let r = World {
            delta: None,
            player: None,
            circles: Vec::new(),
            registered: vec![false, false, false, false, false],
            events: Vec::new(),
        };
        assert(r@.registered =~= empty_world().registered);
        r
    }

    pub fn insert_resource(&mut self, r: Resource)
        ensures
            final(self)@ == with_resource(old(self)@, r),
    {
        match r {
            Resource::Delta(d) => self.delta = Some(d),
            Resource::Player(p) => self.player = Some(p),
        }
    }

    pub fn insert_queue(&mut self, k: EventKind)
        requires
            old(self)@.wf(),
        ensures
            final(self)@ == with_queue(old(self)@, k),
    {
        let (_, kept) = split_kind(&self.events, k);
        self.events = kept;
        self.registered[k.index()] = true;
    }

    pub fn write(&mut self, e: Event)
        requires
            old(self)@.wf(),
        ensures
            final(self)@ == written(old(self)@, e),
    {
        if self.registered[e.kind().index()] {
            self.events.push(e);
        }
    }

    pub fn drain(&mut self, k: EventKind) -> (r: Vec<Event>)
        ensures
            (final(self)@, r@) == drain(old(self)@, k),
    {
        let (taken, kept) = split_kind(&self.events, k);
        self.events = kept;
        taken
    }

    pub fn clear_events(&mut self)
        ensures
            final(self)@ == (WorldView { events: Seq::empty(), ..old(self)@ }),
    {
        self.events = Vec::new();
    }

    pub fn delta(&self) -> (r: Option<DeltaTime>)
        ensures
            r == self@.delta,
    {
        self.delta
    }

    pub fn player(&self) -> (r: Option<PlayerSprite>)
        ensures
            r == self@.player,
    {
        self.player
    }

    pub fn set_player(&mut self, p: PlayerSprite)
        ensures
            final(self)@ == (WorldView { player: Some(p), ..old(self)@ }),
    {
        self.player = Some(p);
    }

    pub fn circles(&self) -> (r: &Vec<CirclePosition>)
        ensures
            r@ == self@.circles,
    {
        &self.circles
    }

    pub fn set_circles(&mut self, c: Vec<CirclePosition>)
        ensures
            final(self)@ == (WorldView { circles: c@, ..old(self)@ }),
    {
        self.circles = c;
    }

    /// The queue of kind `k`, if it was registered.
    pub fn queue(&self, k: EventKind) -> (r: Option<Vec<Event>>)
        requires
            self@.wf(),
        ensures
            r matches Some(q) ==> self@.queue(k) == Some(q@),
            r is None ==> self@.queue(k) is None,
    {
        if self.registered[k.index()] {
            let (taken, _) = split_kind(&self.events, k);
            Some(taken)
        } else {
            None
        }
    }
}

} // verus!
