//! Work handed from the UI loop to the background worker.

use vstd::prelude::*;

pub mod channel;
pub mod handler;

verus! {

/// A unit of work for the worker.
#[derive(Debug, PartialEq, Eq)]
pub enum IoEvent {
    /// Run the bootstrap initialization.
    Initialize,
    /// Sleep for this many seconds.
    Sleep(u64),
    /// Add this text to the message log.
    AddMessage(String),
}

/// The mathematical value of an [`IoEvent`].
pub enum IoEventView {
    Initialize,
    Sleep(u64),
    AddMessage(Seq<char>),
}

impl View for IoEvent {
    type V = IoEventView;

    open spec fn view(&self) -> IoEventView {
        match self {
            IoEvent::Initialize => IoEventView::Initialize,
            IoEvent::Sleep(seconds) => IoEventView::Sleep(*seconds),
            IoEvent::AddMessage(text) => IoEventView::AddMessage(text@),
        }
    }
}

impl Clone for IoEvent {
    fn clone(&self) -> (copy: IoEvent)
        ensures
            copy == *self,
    {
        match self {
            IoEvent::Initialize => IoEvent::Initialize,
            IoEvent::Sleep(seconds) => IoEvent::Sleep(*seconds),
            IoEvent::AddMessage(text) => IoEvent::AddMessage(text.clone()),
        }
    }
}

} // verus!
