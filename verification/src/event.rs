//! What travels from the terminal to the dashboard.
use vstd::prelude::*;

verus! {

/// The key that ends the dashboard.
pub const QUIT_KEY: char = 'q';

/// A key press, reduced to what the dashboard tells apart.
#[derive(Clone, Copy, Debug, PartialEq, Eq, Structural)]
pub enum Key {
    /// A character key.
    Char(char),
    /// The right arrow.
    Right,
    /// Any other key.
    Other,
}

/// Something the terminal reported.
#[derive(Debug, PartialEq, Eq)]
pub enum Input {
    /// A key was pressed.
    Key(Key),
    /// Text was pasted.
    Paste(String),
    /// Anything else: a resize, the mouse, a change of focus.
    Other,
}

/// A message on the channel between the producer and the dashboard.
#[derive(Debug, PartialEq, Eq)]
pub enum Event {
    /// Terminal input, passed on.
    Input(Input),
    /// The tick interval has elapsed.
    Tick,
}

/// An [`Input`] with its text as a sequence of characters.
pub enum InputView {
    Key(Key),
    Paste(Seq<char>),
    Other,
}

/// An [`Event`] with its text as a sequence of characters.
pub enum EventView {
    Input(InputView),
    Tick,
}

impl View for Input {
    type V = InputView;

    open spec fn view(&self) -> InputView {
        match *self {
            Input::Key(key) => InputView::Key(key),
            Input::Paste(text) => InputView::Paste(text@),
            Input::Other => InputView::Other,
        }
    }
}

impl View for Event {
    type V = EventView;

    open spec fn view(&self) -> EventView {
        match *self {
            Event::Input(input) => EventView::Input(input@),
            Event::Tick => EventView::Tick,
        }
    }
}

impl EventView {
    /// Whether the event is a press of the quit key.
    pub open spec fn is_quit(self) -> bool {
        self == EventView::Input(InputView::Key(Key::Char(QUIT_KEY)))
    }
}

impl Event {
    /// Whether the event is a press of the quit key.
    pub fn is_quit(&self) -> (quit: bool)
        ensures
            quit == self@.is_quit(),
    {
        match self {
            Event::Input(Input::Key(Key::Char(c))) => *c == QUIT_KEY,
            _ => false,
        }
    }
}

} // verus!
