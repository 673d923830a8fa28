use vstd::prelude::*;

verus! {

/// What the host's event queue hands out.
#[derive(Debug, PartialEq, Eq)]
pub enum Event<T> {
    /// Something came in from the user.
    Input(T),
    /// It is time for the machine's next step.
    Tick,
}

/// A key of a terminal, as far as the machine cares.
#[derive(Clone, Copy, Debug, PartialEq, Eq, Structural)]
pub enum Key {
    /// A key that types a character.
    Char(char),
    /// Any other key.
    Other,
}

/// Whether the event is the user typing `q`, which ends the run.
pub open spec fn asks_to_quit(event: Event<Key>) -> bool {
    event == Event::Input(Key::Char('q'))
}

/// Whether the machine keeps running after the event: it stops at `q` and
/// otherwise goes on as before.
pub fn handle(running: bool, event: &Event<Key>) -> (still: bool)
    ensures
        still == (running && !asks_to_quit(*event)),
{
    match event {
        Event::Input(Key::Char(c)) => running && *c != 'q',
        _ => running,
    }
}

} // verus!
