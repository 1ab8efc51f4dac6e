//! The plugin is started, stopped or switched off.

use crate::events::{Cancellation, Event, Events};
use vstd::prelude::*;

verus! {

/// The host has started.
#[derive(Debug)]
pub struct StartEvent {
    pub canceld: Cancellation,
}

impl StartEvent {
    /// The event, not cancelled.
    pub fn new() -> (event: StartEvent)
        ensures
            !event.cancelled(),
    {
        StartEvent { canceld: Cancellation::unset() }
    }
}

impl Event for StartEvent {
    open spec fn kind(&self) -> Events {
        Events::Start
    }

    open spec fn cancelled(&self) -> bool {
        self.canceld.is_set()
    }

    open spec fn after_cancel(&self) -> StartEvent {
        StartEvent { canceld: self.canceld.after_set() }
    }

    fn get_type(&self) -> (kind: Events)
        ensures
            kind == Events::Start,
    {
        Events::Start
    }

    fn is_cancel(&self) -> (cancelled: bool)
        ensures
            cancelled == self.canceld.is_set(),
    {
        self.canceld.get()
    }

    fn cancel(&mut self)
        ensures
            final(self).canceld.is_set(),
            *final(self) == (StartEvent { canceld: old(self).canceld.after_set() }),
    {
        proof {
            self.canceld.lemma_set_is_idempotent();
        }
        self.canceld.set();
    }

    proof fn lemma_cancel_is_idempotent(&self) {
        self.canceld.lemma_set_is_idempotent();
    }
}

/// The host is about to exit.
#[derive(Debug)]
pub struct ExitEvent {
    pub canceld: Cancellation,
}

impl ExitEvent {
    /// The event, not cancelled.
    pub fn new() -> (event: ExitEvent)
        ensures
            !event.cancelled(),
    {
        ExitEvent { canceld: Cancellation::unset() }
    }
}

impl Event for ExitEvent {
    open spec fn kind(&self) -> Events {
        Events::Exit
    }

    open spec fn cancelled(&self) -> bool {
        self.canceld.is_set()
    }

    open spec fn after_cancel(&self) -> ExitEvent {
        ExitEvent { canceld: self.canceld.after_set() }
    }

    fn get_type(&self) -> (kind: Events)
        ensures
            kind == Events::Exit,
    {
        Events::Exit
    }

    fn is_cancel(&self) -> (cancelled: bool)
        ensures
            cancelled == self.canceld.is_set(),
    {
        self.canceld.get()
    }

    fn cancel(&mut self)
        ensures
            final(self).canceld.is_set(),
            *final(self) == (ExitEvent { canceld: old(self).canceld.after_set() }),
    {
        proof {
            self.canceld.lemma_set_is_idempotent();
        }
        self.canceld.set();
    }

    proof fn lemma_cancel_is_idempotent(&self) {
        self.canceld.lemma_set_is_idempotent();
    }
}

/// The plugin has been switched off.
#[derive(Debug)]
pub struct DisableEvent {
    pub canceld: Cancellation,
}

impl DisableEvent {
    /// The event, not cancelled.
    pub fn new() -> (event: DisableEvent)
        ensures
            !event.cancelled(),
    {
        DisableEvent { canceld: Cancellation::unset() }
    }
}

impl Event for DisableEvent {
    open spec fn kind(&self) -> Events {
        Events::Disable
    }

    open spec fn cancelled(&self) -> bool {
        self.canceld.is_set()
    }

    open spec fn after_cancel(&self) -> DisableEvent {
        DisableEvent { canceld: self.canceld.after_set() }
    }

    fn get_type(&self) -> (kind: Events)
        ensures
            kind == Events::Disable,
    {
        Events::Disable
    }

    fn is_cancel(&self) -> (cancelled: bool)
        ensures
            cancelled == self.canceld.is_set(),
    {
        self.canceld.get()
    }

    fn cancel(&mut self)
        ensures
            final(self).canceld.is_set(),
            *final(self) == (DisableEvent { canceld: old(self).canceld.after_set() }),
    {
        proof {
            self.canceld.lemma_set_is_idempotent();
        }
        self.canceld.set();
    }

    proof fn lemma_cancel_is_idempotent(&self) {
        self.canceld.lemma_set_is_idempotent();
    }
}

} // verus!
