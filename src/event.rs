use vstd::prelude::*;

verus! {

/// The kinds of event that systems exchange; each kind has its own queue.
#[derive(Clone, Copy, Debug, PartialEq, Eq, Structural, Hash)]
pub enum EventKind {
    Exit,
    CreateCircle,
    DestroyCircle,
    Gravity,
    Movement,
}

/// How many kinds of event there are.
pub const EVENT_KIND_COUNT: usize = 5;

impl EventKind {
    /// The slot of this kind in the table of registered queues.
    pub open spec fn slot(self) -> nat {
        match self {
            EventKind::Exit => 0,
            EventKind::CreateCircle => 1,
            EventKind::DestroyCircle => 2,
            EventKind::Gravity => 3,
            EventKind::Movement => 4,
        }
    }

    /// The slot of this kind in the table of registered queues.
    pub fn index(&self) -> (r: usize)
        ensures
            r == self.slot(),
            r < EVENT_KIND_COUNT,
    {
        match self {
            EventKind::Exit => 0,
            EventKind::CreateCircle => 1,
            EventKind::DestroyCircle => 2,
            EventKind::Gravity => 3,
            EventKind::Movement => 4,
        }
    }
}

/// Where the player asked to go this frame; `Stay` stops the walk.
#[derive(Clone, Copy, Debug, PartialEq, Eq, Structural, Hash)]
pub enum Direction {
    Up,
    Down,
    Left,
    Right,
    Stay,
}

/// A message written by one system and read by another during a frame.
#[derive(Clone, Copy, Debug, PartialEq, Eq, Structural, Hash)]
pub enum Event {
    /// The player asked to quit.
    Exit,
    /// Spawn a circle.
    CreateCircle,
    /// Remove every circle.
    DestroyCircle,
    /// Pull the circles by this strength, in pixels per second.
    Gravity(u32),
    /// Move the player.
    Moved(Direction),
}

impl Event {
    pub open spec fn spec_kind(&self) -> EventKind {
        match self {
            Event::Exit => EventKind::Exit,
            Event::CreateCircle => EventKind::CreateCircle,
            Event::DestroyCircle => EventKind::DestroyCircle,
            Event::Gravity(_) => EventKind::Gravity,
            Event::Moved(_) => EventKind::Movement,
        }
    }

    /// The queue this event goes to.
    #[verifier::when_used_as_spec(spec_kind)]
    pub fn kind(&self) -> (r: EventKind)
        ensures
            r == self.spec_kind(),
    {
        match self {
            Event::Exit => EventKind::Exit,
            Event::CreateCircle => EventKind::CreateCircle,
            Event::DestroyCircle => EventKind::DestroyCircle,
            Event::Gravity(_) => EventKind::Gravity,
            Event::Moved(_) => EventKind::Movement,
        }
    }
}

/// The events of kind `k` among `s`, in the order they were written.
pub open spec fn of_kind(s: Seq<Event>, k: EventKind) -> Seq<Event>
    decreases s.len(),
{
    if s.len() == 0 {
        Seq::empty()
    } else {
        let rest = of_kind(s.drop_last(), k);
        if s.last().kind() == k {
            rest.push(s.last())
        } else {
            rest
        }
    }
}

/// The events of `s` whose kind is not `k`, in the order they were written.
pub open spec fn without_kind(s: Seq<Event>, k: EventKind) -> Seq<Event>
    decreases s.len(),
{
    if s.len() == 0 {
        Seq::empty()
    } else {
        let rest = without_kind(s.drop_last(), k);
        if s.last().kind() == k {
            rest
        } else {
            rest.push(s.last())
        }
    }
}

pub proof fn lemma_of_kind_push(s: Seq<Event>, e: Event, k: EventKind)
    ensures
        of_kind(s.push(e), k) == (if e.kind() == k { of_kind(s, k).push(e) } else { of_kind(s, k) }),
        without_kind(s.push(e), k) == (if e.kind() == k { without_kind(s, k) } else { without_kind(s, k).push(e) }),
{
    assert(s.push(e).drop_last() =~= s);
}

/// Taking out the events of one kind leaves the queues of the other kinds as
/// they were.
pub proof fn lemma_without_kind_keeps_others(s: Seq<Event>, k: EventKind, k2: EventKind)
    requires
        k != k2,
    ensures
        of_kind(without_kind(s, k), k2) == of_kind(s, k2),
    decreases s.len(),
{
    if s.len() > 0 {
        lemma_without_kind_keeps_others(s.drop_last(), k, k2);
        lemma_of_kind_push(without_kind(s.drop_last(), k), s.last(), k2);
    }
}

/// Once the events of a kind are out, none of that kind is left.
pub proof fn lemma_without_kind_empties(s: Seq<Event>, k: EventKind)
    ensures
        of_kind(without_kind(s, k), k) == Seq::<Event>::empty(),
        without_kind(without_kind(s, k), k) == without_kind(s, k),
    decreases s.len(),
{
    if s.len() > 0 {
        lemma_without_kind_empties(s.drop_last(), k);
        lemma_of_kind_push(without_kind(s.drop_last(), k), s.last(), k);
    }
}

/// Splits `events` into the events of kind `k` and the rest, each in the order
/// they were written.
pub fn split_kind(events: &Vec<Event>, k: EventKind) -> (r: (Vec<Event>, Vec<Event>))
    ensures
        r.0@ == of_kind(events@, k),
        r.1@ == without_kind(events@, k),
{
    let mut taken: Vec<Event> = Vec::new();
    let mut kept: Vec<Event> = Vec::new();
    let mut i: usize = 0;
    while i < events.len()
        invariant
            i <= events@.len(),
            taken@ == of_kind(events@.take(i as int), k),
            kept@ == without_kind(events@.take(i as int), k),
        decreases events@.len() - i,
    {
        let e = events[i];
        proof {
            assert(events@.take(i as int + 1) =~= events@.take(i as int).push(e));
            lemma_of_kind_push(events@.take(i as int), e, k);
        }
        if e.kind() == k {
            taken.push(e);
        } else {
            kept.push(e);
        }
        i = i + 1;
    }
    assert(events@.take(i as int) =~= events@);
    (taken, kept)
}

} // verus!
