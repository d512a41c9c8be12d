//! Window events and their effect on the close flag.

use vstd::prelude::*;

verus! {

/// What happened to a key.
#[derive(Clone, Copy, Debug, PartialEq, Eq, Structural)]
pub enum Action {
    Release,
    Press,
    Repeat,
}

/// Key code of the quit key, the letter Q.
pub const KEY_Q: i32 = 81;

/// A window event, reduced to what the handler reads.
#[derive(Clone, Copy, Debug, PartialEq, Eq, Structural)]
pub enum WindowEvent {
    /// The user asked for the window to be closed.
    Close,
    /// A key changed state; `key` is the platform's key code.
    Key { key: i32, action: Action },
    /// Any other event.
    Other,
}

/// The part of a window that event handling can change.
#[derive(Clone, Copy, Debug, PartialEq, Eq, Structural)]
pub struct WindowState {
    should_close: bool,
}

/// True for the events that ask the render loop to end: a close request, or
/// a press of the quit key.
pub open spec fn requests_close(event: WindowEvent) -> bool {
    match event {
        WindowEvent::Close => true,
        WindowEvent::Key { key, action } => key == KEY_Q && action == Action::Press,
        WindowEvent::Other => false,
    }
}

impl WindowState {
    /// The close flag of this window.
    pub closed spec fn close_flag(self) -> bool {
        self.should_close
    }

    /// A window that has not been asked to close.
    pub fn new() -> (window: WindowState)
        ensures
            !window.close_flag(),
    {
        WindowState { should_close: false }
    }

    /// Reads the close flag.
    pub fn should_close(&self) -> (flag: bool)
        ensures
            flag == self.close_flag(),
    {
        self.should_close
    }

    /// Sets the close flag.
    pub fn set_should_close(&mut self, value: bool)
        ensures
            final(self).close_flag() == value,
    {
        self.should_close = value;
    }
}

/// Handles one event: a close request or a press of the quit key sets the
/// close flag, every other event leaves the window as it was.
pub fn glfw_handle_event(window: &mut WindowState, event: WindowEvent)
    ensures
        final(window).close_flag() == (old(window).close_flag() || requests_close(event)),
        !requests_close(event) ==> *final(window) == *old(window),
{
    match event {
        WindowEvent::Close => window.set_should_close(true),
        WindowEvent::Key { key, action } => {
            if key == KEY_Q && action == Action::Press {
                window.set_should_close(true);
            }
        },
        WindowEvent::Other => {},
    }
}

/// Nothing but a close request and a press of the quit key asks the render
/// loop to end: no other kind of event, no other key, and neither the
/// release nor the repeat of the quit key.
pub proof fn lemma_what_requests_close(event: WindowEvent)
    ensures
        requests_close(event) <==> event == WindowEvent::Close || event == (WindowEvent::Key {
            key: KEY_Q,
            action: Action::Press,
        }),
{
}

/// True if some event of the batch asks the render loop to end.
pub open spec fn any_requests_close(events: Seq<WindowEvent>) -> bool {
    exists|i: int| 0 <= i < events.len() && requests_close(#[trigger] events[i])
}

/// Handles a batch of events in the order in which they were queued. The
/// close flag is set afterwards if it was set before or if some event of
/// the batch asks for it.
pub fn handle_events(window: &mut WindowState, events: &Vec<WindowEvent>)
    ensures
        final(window).close_flag() == (old(window).close_flag() || any_requests_close(events@)),
        !any_requests_close(events@) ==> *final(window) == *old(window),
{
    let ghost before = *window;
    let mut i: usize = 0;
    while i < events.len()
        invariant
            i <= events.len(),
            window.close_flag() == (before.close_flag() || any_requests_close(
                events@.take(i as int),
            )),
            !any_requests_close(events@.take(i as int)) ==> *window == before,
        decreases events.len() - i,
    {
        let ghost seen = events@.take(i as int);
        let ghost grown = events@.take(i + 1);
        glfw_handle_event(window, events[i]);
        proof {
            assert(grown[i as int] == events@[i as int]);
            assert(any_requests_close(grown) == (any_requests_close(seen) || requests_close(
                events@[i as int],
            )));
        }
        i += 1;
    }
    assert(events@.take(i as int) == events@);
}

} // verus!
