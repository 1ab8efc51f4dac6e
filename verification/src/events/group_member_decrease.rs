//! A member left a group or was removed from it.

use crate::events::{Cancellation, Event, Events, GroupContext};
use vstd::prelude::*;

verus! {

/// A member left a group or was removed from it.
#[derive(Debug)]
pub struct GroupMemberDecreaseEvent {
    pub canceld: Cancellation,
    pub sub_type: i32,
    pub send_time: i32,
    pub group_id: i64,
    pub operate_user_id: i64,
    pub being_operate_user_id: i64,
}

impl GroupMemberDecreaseEvent {
    /// The event that the host's arguments describe, not cancelled.
    pub fn new(
        sub_type: i32,
        send_time: i32,
        group_id: i64,
        operate_user_id: i64,
        being_operate_user_id: i64,
    ) -> (event: GroupMemberDecreaseEvent)
        ensures
            !event.cancelled(),
            event.sub_type == sub_type,
            event.send_time == send_time,
            event.group_id == group_id,
            event.operate_user_id == operate_user_id,
            event.being_operate_user_id == being_operate_user_id,
    {
        GroupMemberDecreaseEvent {
            canceld: Cancellation::unset(),
            sub_type,
            send_time,
            group_id,
            operate_user_id,
            being_operate_user_id,
        }
    }
}

impl Event for GroupMemberDecreaseEvent {
    open spec fn kind(&self) -> Events {
        Events::GroupMemberDecrease
    }

    open spec fn cancelled(&self) -> bool {
        self.canceld.is_set()
    }

    open spec fn after_cancel(&self) -> GroupMemberDecreaseEvent {
        GroupMemberDecreaseEvent { canceld: self.canceld.after_set(), ..*self }
    }

    fn get_type(&self) -> (kind: Events)
        ensures
            kind == Events::GroupMemberDecrease,
    {
        Events::GroupMemberDecrease
    }

    fn is_cancel(&self) -> (cancelled: bool)
        ensures
            cancelled == self.canceld.is_set(),
    {
        self.canceld.get()
    }

    fn cancel(&mut self)
        ensures
            final(self).canceld.is_set(),
            *final(self) == (GroupMemberDecreaseEvent {
                canceld: old(self).canceld.after_set(),
                ..*old(self)
            }),
    {
        proof {
            self.canceld.lemma_set_is_idempotent();
        }
        self.canceld.set();
    }

    proof fn lemma_cancel_is_idempotent(&self) {
        self.canceld.lemma_set_is_idempotent();
    }
}

impl GroupContext for GroupMemberDecreaseEvent {}

} // verus!
