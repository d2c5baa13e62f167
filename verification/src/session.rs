//! What the network session hands to the listener: rendered events and terminal errors.
use vstd::prelude::*;

verus! {

/// A terminal condition of the network session, as mathematical values.
pub struct Fault {
    /// What went wrong, in words.
    pub description: Seq<char>,
    /// The platform's status code for it, where there is one.
    pub code: Option<i32>,
}

/// A terminal condition reported by the network layer.
#[derive(Debug, PartialEq, Eq)]
pub struct SessionError {
    /// What went wrong, in words.
    pub description: String,
    /// The platform's status code for it, where there is one.
    pub code: Option<i32>,
}

impl View for SessionError {
    type V = Fault;

    open spec fn view(&self) -> Fault {
        Fault { description: self.description@, code: self.code }
    }
}

/// One outcome of waiting on the session, as mathematical values.
pub enum Event {
    /// An event arrived; this is its rendered text.
    Received(Seq<char>),
    /// The session failed for good.
    Failed(Fault),
}

/// One outcome of waiting on the session.
#[derive(Debug, PartialEq, Eq)]
pub enum SessionEvent {
    /// An event arrived; this is its rendered text.
    Received(String),
    /// The session failed for good.
    Failed(SessionError),
}

impl View for SessionEvent {
    type V = Event;

    open spec fn view(&self) -> Event {
        match self {
            SessionEvent::Received(text) => Event::Received(text@),
            SessionEvent::Failed(error) => Event::Failed(error@),
        }
    }
}

} // verus!
