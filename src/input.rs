use vstd::prelude::*;

verus! {

/// The keys the game reacts to; every other key is `Other`.
#[derive(Clone, Copy, Debug, PartialEq, Eq, Structural)]
pub enum Key {
    Escape,
    /// Player 1 up.
    Z,
    /// Player 1 down.
    S,
    /// Player 2 up.
    Up,
    /// Player 2 down.
    Down,
    Other,
}

/// One event taken from the input source.
#[derive(Clone, Copy, Debug, PartialEq, Eq, Structural)]
pub enum InputEvent {
    /// The window was asked to close.
    Quit,
    KeyDown(Key),
    KeyUp(Key),
    Other,
}

/// Whether each movement key is currently held.
#[derive(Clone, Copy, Debug, PartialEq, Eq, Structural)]
pub struct HeldKeys {
    pub up_p1: bool,
    pub down_p1: bool,
    pub up_p2: bool,
    pub down_p2: bool,
}

/// Whether the event ends the game: a quit, or Escape pressed.
pub open spec fn is_quit(e: InputEvent) -> bool {
    e == InputEvent::Quit || e == InputEvent::KeyDown(Key::Escape)
}

/// The held keys after one event that does not end the game.
pub open spec fn after_event(k: HeldKeys, e: InputEvent) -> HeldKeys {
    match e {
        InputEvent::KeyDown(Key::Z) => HeldKeys { up_p1: true, ..k },
        InputEvent::KeyDown(Key::S) => HeldKeys { down_p1: true, ..k },
        InputEvent::KeyDown(Key::Up) => HeldKeys { up_p2: true, ..k },
        InputEvent::KeyDown(Key::Down) => HeldKeys { down_p2: true, ..k },
        InputEvent::KeyUp(Key::Z) => HeldKeys { up_p1: false, ..k },
        InputEvent::KeyUp(Key::S) => HeldKeys { down_p1: false, ..k },
        InputEvent::KeyUp(Key::Up) => HeldKeys { up_p2: false, ..k },
        InputEvent::KeyUp(Key::Down) => HeldKeys { down_p2: false, ..k },
        _ => k,
    }
}

/// Events taken in order until the first one that ends the game: the held
/// keys at that point, and whether such an event came.
pub open spec fn after_events(k: HeldKeys, es: Seq<InputEvent>) -> (HeldKeys, bool)
    decreases es.len(),
{
    if es.len() == 0 {
        (k, false)
    } else if is_quit(es[0]) {
        (k, true)
    } else {
        after_events(after_event(k, es[0]), es.drop_first())
    }
}

impl HeldKeys {
    /// No key held.
    pub fn new() -> (r: HeldKeys)
        ensures
            !r.up_p1 && !r.down_p1 && !r.up_p2 && !r.down_p2,
    {
        HeldKeys { up_p1: false, down_p1: false, up_p2: false, down_p2: false }
    }

    /// Takes one event: returns true, leaving the keys as they are, when it
    /// ends the game; otherwise records a press or release of a movement key.
    pub fn apply(&mut self, e: InputEvent) -> (quit: bool)
        ensures
            quit == is_quit(e),
            quit ==> *final(self) == *old(self),
            !quit ==> *final(self) == after_event(*old(self), e),
    {
        match e {
            InputEvent::Quit => true,
            InputEvent::KeyDown(Key::Escape) => true,
            InputEvent::KeyDown(Key::Z) => {
                self.up_p1 = true;
                false
            },
            InputEvent::KeyDown(Key::S) => {
                self.down_p1 = true;
                false
            },
            InputEvent::KeyDown(Key::Up) => {
                self.up_p2 = true;
                false
            },
            InputEvent::KeyDown(Key::Down) => {
                self.down_p2 = true;
                false
            },
            InputEvent::KeyUp(Key::Z) => {
                self.up_p1 = false;
                false
            },
            InputEvent::KeyUp(Key::S) => {
                self.down_p1 = false;
                false
            },
            InputEvent::KeyUp(Key::Up) => {
                self.up_p2 = false;
                false
            },
            InputEvent::KeyUp(Key::Down) => {
                self.down_p2 = false;
                false
            },
            _ => false,
        }
    }

    /// Takes the events of one frame in order and stops at the first one that
    /// ends the game, which it reports; the events after it change nothing.
    pub fn apply_all(&mut self, events: &Vec<InputEvent>) -> (quit: bool)
        ensures
            (*final(self), quit) == after_events(*old(self), events@),
    {
        let mut i: usize = 0;
        proof {
            assert(events@.skip(0) =~= events@);
        }
        while i < events.len()
            invariant
                0 <= i <= events.len(),
                after_events(*self, events@.skip(i as int)) == after_events(
                    *old(self),
                    events@,
                ),
            decreases events.len() - i,
        {
            let e = events[i];
            proof {
                assert(events@.skip(i as int)[0] == e);
                assert(events@.skip(i as int).drop_first() =~= events@.skip(i as int + 1));
            }
            if self.apply(e) {
                return true;
            }
            i = i + 1;
        }
        proof {
            assert(events@.skip(i as int) =~= Seq::<InputEvent>::empty());
        }
        false
    }
}

} // verus!
