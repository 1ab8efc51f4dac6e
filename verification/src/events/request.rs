//! New friends, and requests to become one or to join a group.

use crate::error::DecodeFailure;
use crate::events::{
    read_text_argument, text_argument, Cancellation, Event, Events, GroupContext,
};
use crate::targets::Flag;
use vstd::prelude::*;

verus! {

/// A friend was added.
#[derive(Debug)]
pub struct FriendAddEvent {
    pub canceld: Cancellation,
    pub sub_type: i32,
    pub send_time: i32,
    pub user_id: i64,
}

impl FriendAddEvent {
    /// The event that the host's arguments describe, not cancelled.
    pub fn new(sub_type: i32, send_time: i32, user_id: i64) -> (event: FriendAddEvent)
        ensures
            !event.cancelled(),
            event.sub_type == sub_type,
            event.send_time == send_time,
            event.user_id == user_id,
    {
        FriendAddEvent { canceld: Cancellation::unset(), sub_type, send_time, user_id }
    }
}

impl Event for FriendAddEvent {
    open spec fn kind(&self) -> Events {
        Events::FriendAdd
    }

    open spec fn cancelled(&self) -> bool {
        self.canceld.is_set()
    }

    open spec fn after_cancel(&self) -> FriendAddEvent {
        FriendAddEvent { canceld: self.canceld.after_set(), ..*self }
    }

    fn get_type(&self) -> (kind: Events)
        ensures
            kind == Events::FriendAdd,
    {
        Events::FriendAdd
    }

    fn is_cancel(&self) -> (cancelled: bool)
        ensures
            cancelled == self.canceld.is_set(),
    {
        self.canceld.get()
    }

    fn cancel(&mut self)
        ensures
            final(self).canceld.is_set(),
            *final(self) == (FriendAddEvent {
                canceld: old(self).canceld.after_set(),
                ..*old(self)
            }),
    {
        proof {
            self.canceld.lemma_set_is_idempotent();
        }
        self.canceld.set();
    }

    proof fn lemma_cancel_is_idempotent(&self) {
        self.canceld.lemma_set_is_idempotent();
    }
}

/// Someone asks to become a friend.
#[derive(Debug)]
pub struct AddFriendRequestEvent {
    pub canceld: Cancellation,
    pub sub_type: i32,
    pub send_time: i32,
    pub user_id: i64,
    pub msg: String,
    pub flag: Flag,
}

impl AddFriendRequestEvent {
    /// The event that the host's arguments describe, not cancelled. `msg` is
    /// a length-prefixed text. `flag` is the token by which the host knows
    /// the request: it is kept byte for byte.
    pub fn new(
        sub_type: i32,
        send_time: i32,
        user_id: i64,
        msg: &[u8],
        flag: &[u8],
    ) -> (r: Result<AddFriendRequestEvent, DecodeFailure>)
        ensures
            match text_argument(msg@) {
                Ok(text) => {
                    &&& r matches Ok(event)
                    &&& !event.cancelled()
                    &&& event.sub_type == sub_type
                    &&& event.send_time == send_time
                    &&& event.user_id == user_id
                    &&& event.msg@ == text
                    &&& event.flag@ == flag@
                },
                Err(failure) => r matches Err(e) && e == failure,
            },
    {
        let msg = match read_text_argument(msg) {
            Ok(msg) => msg,
            Err(failure) => {
                return Err(failure);
            },
        };
        Ok(
            AddFriendRequestEvent {
                canceld: Cancellation::unset(),
                sub_type,
                send_time,
                user_id,
                msg,
                flag: Flag::from_bytes(flag),
            },
        )
    }
}

impl Event for AddFriendRequestEvent {
    open spec fn kind(&self) -> Events {
        Events::AddFriendRequest
    }

    open spec fn cancelled(&self) -> bool {
        self.canceld.is_set()
    }

    open spec fn after_cancel(&self) -> AddFriendRequestEvent {
        AddFriendRequestEvent { canceld: self.canceld.after_set(), ..*self }
    }

    fn get_type(&self) -> (kind: Events)
        ensures
            kind == Events::AddFriendRequest,
    {
        Events::AddFriendRequest
    }

    fn is_cancel(&self) -> (cancelled: bool)
        ensures
            cancelled == self.canceld.is_set(),
    {
        self.canceld.get()
    }

    fn cancel(&mut self)
        ensures
            final(self).canceld.is_set(),
            *final(self) == (AddFriendRequestEvent {
                canceld: old(self).canceld.after_set(),
                ..*old(self)
            }),
    {
        proof {
            self.canceld.lemma_set_is_idempotent();
        }
        self.canceld.set();
    }

    proof fn lemma_cancel_is_idempotent(&self) {
        self.canceld.lemma_set_is_idempotent();
    }
}

/// Someone asks to join a group, or invites the account into one.
#[derive(Debug)]
pub struct AddGroupRequestEvent {
    pub canceld: Cancellation,
    pub sub_type: i32,
    pub send_time: i32,
    pub group_id: i64,
    pub user_id: i64,
    pub msg: String,
    pub flag: Flag,
}

impl AddGroupRequestEvent {
    /// The event that the host's arguments describe, not cancelled. `msg` is
    /// a length-prefixed text. `flag` is the token by which the host knows
    /// the request: it is kept byte for byte.
    pub fn new(
        sub_type: i32,
        send_time: i32,
        group_id: i64,
        user_id: i64,
        msg: &[u8],
        flag: &[u8],
    ) -> (r: Result<AddGroupRequestEvent, DecodeFailure>)
        ensures
            match text_argument(msg@) {
                Ok(text) => {
                    &&& r matches Ok(event)
                    &&& !event.cancelled()
                    &&& event.sub_type == sub_type
                    &&& event.send_time == send_time
                    &&& event.group_id == group_id
                    &&& event.user_id == user_id
                    &&& event.msg@ == text
                    &&& event.flag@ == flag@
                },
                Err(failure) => r matches Err(e) && e == failure,
            },
    {
        let msg = match read_text_argument(msg) {
            Ok(msg) => msg,
            Err(failure) => {
                return Err(failure);
            },
        };
        Ok(
            AddGroupRequestEvent {
                canceld: Cancellation::unset(),
                sub_type,
                send_time,
                group_id,
                user_id,
                msg,
                flag: Flag::from_bytes(flag),
            },
        )
    }
}

impl Event for AddGroupRequestEvent {
    open spec fn kind(&self) -> Events {
        Events::AddGroupRequest
    }

    open spec fn cancelled(&self) -> bool {
        self.canceld.is_set()
    }

    open spec fn after_cancel(&self) -> AddGroupRequestEvent {
        AddGroupRequestEvent { canceld: self.canceld.after_set(), ..*self }
    }

    fn get_type(&self) -> (kind: Events)
        ensures
            kind == Events::AddGroupRequest,
    {
        Events::AddGroupRequest
    }

    fn is_cancel(&self) -> (cancelled: bool)
        ensures
            cancelled == self.canceld.is_set(),
    {
        self.canceld.get()
    }

    fn cancel(&mut self)
        ensures
            final(self).canceld.is_set(),
            *final(self) == (AddGroupRequestEvent {
                canceld: old(self).canceld.after_set(),
                ..*old(self)
            }),
    {
        proof {
            self.canceld.lemma_set_is_idempotent();
        }
        self.canceld.set();
    }

    proof fn lemma_cancel_is_idempotent(&self) {
        self.canceld.lemma_set_is_idempotent();
    }
}

impl GroupContext for AddGroupRequestEvent {}

} // verus!
