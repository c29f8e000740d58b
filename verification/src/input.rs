//! Input events as the loop sees them, and the signals that end it: a quit
//! event and the escape key going down.

use vstd::prelude::*;

verus! {

/// Code of a key, as far as the loop tells keys apart.
#[derive(Clone, Copy, Debug, PartialEq, Eq, Structural)]
pub enum Key {
    Escape,
    Other,
}

/// Kind of an input event.
#[derive(Clone, Copy, Debug, PartialEq, Eq, Structural)]
pub enum InputEvent {
    /// The window or the platform asks the program to quit.
    Quit,
    /// A key went down; `key` is its code, if it has one.
    KeyDown { key: Option<Key> },
    /// Anything else.
    Other,
}

impl InputEvent {
    /// A quit event, or the escape key going down.
    pub open spec fn spec_is_exit_signal(self) -> bool {
        self == InputEvent::Quit || self == (InputEvent::KeyDown { key: Some(Key::Escape) })
    }

    /// Whether this is a quit event or the escape key going down.
    #[verifier::when_used_as_spec(spec_is_exit_signal)]
    pub fn is_exit_signal(self) -> (signal: bool)
        ensures
            signal == self.spec_is_exit_signal(),
    {
        match self {
            InputEvent::Quit => true,
            InputEvent::KeyDown { key: Some(Key::Escape) } => true,
            _ => false,
        }
    }
}

/// Some event among `events` is an exit signal.
pub open spec fn exit_requested(events: Seq<InputEvent>) -> bool {
    exists|i: int| 0 <= i < events.len() && (#[trigger] events[i]).is_exit_signal()
}

/// Classifies every drained event and says whether any of them is an exit
/// signal.
pub fn any_exit_request(events: &Vec<InputEvent>) -> (exit: bool)
    ensures
        exit == exit_requested(events@),
{
    let mut exit: bool = false;
    let mut index: usize = 0;
    while index < events.len()
        invariant
            index <= events.len(),
            exit == exit_requested(events@.take(index as int)),
        decreases events.len() - index,
    {
        let event: InputEvent = events[index];
        proof {
            let seen = events@.take(index as int);
            let next = events@.take(index as int + 1);
            assert(next[index as int] == event);
            assert(forall|i: int| 0 <= i < seen.len() ==> seen[i] == next[i]);
            if exit_requested(next) {
                let i = choose|i: int| 0 <= i < next.len() && (#[trigger] next[i]).is_exit_signal();
                if i < index {
                    assert(seen[i].is_exit_signal());
                }
            }
        }
        if event.is_exit_signal() {
            exit = true;
        }
        index = index + 1;
    }
    assert(events@.take(index as int) =~= events@);
    exit
}

} // verus!
