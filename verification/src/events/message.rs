//! Messages: from a friend, in a group, in a discussion.

use crate::error::{DecodeCause, DecodeFailure, DecodeStage};
use crate::events::{
    read_text_argument, text_argument, Cancellation, Event, Events, GroupContext,
};
use crate::targets::{base64_payload, sender_record, Anonymous, SenderRecord};
use vstd::prelude::*;

verus! {

/// A private message arrived.
#[derive(Debug)]
pub struct PrivateMessageEvent {
    pub canceld: Cancellation,
    pub sub_type: i32,
    pub msg_id: i32,
    pub user_id: i64,
    pub msg: String,
    pub font: i32,
}

impl PrivateMessageEvent {
    /// The event that the host's arguments describe, not cancelled. `msg` is
    /// a length-prefixed text; the numbers are taken as they are.
    pub fn new(sub_type: i32, msg_id: i32, user_id: i64, msg: &[u8], font: i32) -> (r: Result<
        PrivateMessageEvent,
        DecodeFailure,
    >)
        ensures
            match text_argument(msg@) {
                Ok(text) => {
                    &&& r matches Ok(event)
                    &&& !event.cancelled()
                    &&& event.sub_type == sub_type
                    &&& event.msg_id == msg_id
                    &&& event.user_id == user_id
                    &&& event.msg@ == text
                    &&& event.font == font
                },
                Err(failure) => r matches Err(e) && e == failure,
            },
    {
        let msg = match read_text_argument(msg) {
            Ok(msg) => msg,
            Err(failure) => {
                return Err(failure);
            },
        };
        Ok(
            PrivateMessageEvent {
                canceld: Cancellation::unset(),
                sub_type,
                msg_id,
                user_id,
                msg,
                font,
            },
        )
    }
}

impl Event for PrivateMessageEvent {
    open spec fn kind(&self) -> Events {
        Events::PrivateMessage
    }

    open spec fn cancelled(&self) -> bool {
        self.canceld.is_set()
    }

    open spec fn after_cancel(&self) -> PrivateMessageEvent {
        PrivateMessageEvent { canceld: self.canceld.after_set(), ..*self }
    }

    fn get_type(&self) -> (kind: Events)
        ensures
            kind == Events::PrivateMessage,
    {
        Events::PrivateMessage
    }

    fn is_cancel(&self) -> (cancelled: bool)
        ensures
            cancelled == self.canceld.is_set(),
    {
        self.canceld.get()
    }

    fn cancel(&mut self)
        ensures
            final(self).canceld.is_set(),
            *final(self) == (PrivateMessageEvent {
                canceld: old(self).canceld.after_set(),
                ..*old(self)
            }),
    {
        proof {
            self.canceld.lemma_set_is_idempotent();
        }
        self.canceld.set();
    }

    proof fn lemma_cancel_is_idempotent(&self) {
        self.canceld.lemma_set_is_idempotent();
    }
}

/// The sender that the anonymity argument of a group message holds. An empty
/// argument means that the member wrote under their own name; anything else
/// is the base64 envelope of an anonymous sender.
pub open spec fn sender_argument(flag: Seq<u8>, group_id: i64) -> Result<
    Option<SenderRecord>,
    DecodeFailure,
> {
    if flag.len() == 0 {
        Ok(None)
    } else {
        match base64_payload(flag) {
            None => Err(DecodeFailure::at(DecodeStage::Envelope, DecodeCause::MalformedEnvelope)),
            Some(payload) => match sender_record(payload, group_id, flag) {
                Ok(sender) => Ok(Some(sender)),
                Err(failure) => Err(failure),
            },
        }
    }
}

/// The record of the sender of a group message, if it was anonymous.
pub open spec fn sender_view(sender: Option<Anonymous>) -> Option<SenderRecord> {
    match sender {
        Some(sender) => Some(sender@),
        None => None,
    }
}

/// A message arrived in a group.
#[derive(Debug)]
pub struct GroupMessageEvent {
    pub canceld: Cancellation,
    pub sub_type: i32,
    pub msg_id: i32,
    pub group_id: i64,
    pub user_id: i64,
    pub anonymous: Option<Anonymous>,
    pub msg: String,
    pub font: i32,
}

impl GroupMessageEvent {
    /// The event that the host's arguments describe, not cancelled. The
    /// anonymity argument is decoded first, then the message; the first
    /// failure is the one reported.
    pub fn new(
        sub_type: i32,
        msg_id: i32,
        group_id: i64,
        user_id: i64,
        anonymous_flag: &[u8],
        msg: &[u8],
        font: i32,
    ) -> (r: Result<GroupMessageEvent, DecodeFailure>)
        ensures
            match sender_argument(anonymous_flag@, group_id) {
                Err(failure) => r matches Err(e) && e == failure,
                Ok(sender) => match text_argument(msg@) {
                    Ok(text) => {
                        &&& r matches Ok(event)
                        &&& !event.cancelled()
                        &&& event.sub_type == sub_type
                        &&& event.msg_id == msg_id
                        &&& event.group_id == group_id
                        &&& event.user_id == user_id
                        &&& sender_view(event.anonymous) == sender
                        &&& event.msg@ == text
                        &&& event.font == font
                    },
                    Err(failure) => r matches Err(e) && e == failure,
                },
            },
    {
        let anonymous = if anonymous_flag.len() == 0 {
            None
        } else {
            match Anonymous::decode(anonymous_flag, group_id) {
                Ok(sender) => Some(sender),
                Err(failure) => {
                    return Err(failure);
                },
            }
        };
        let msg = match read_text_argument(msg) {
            Ok(msg) => msg,
            Err(failure) => {
                return Err(failure);
            },
        };
        Ok(
            GroupMessageEvent {
                canceld: Cancellation::unset(),
                sub_type,
                msg_id,
                group_id,
                user_id,
                anonymous,
                msg,
                font,
            },
        )
    }

    /// Whether the message was written under a disguise.
    pub fn is_anonymous(&self) -> (anonymous: bool)
        ensures
            anonymous == self.anonymous.is_some(),
    {
        self.anonymous.is_some()
    }
}

impl Event for GroupMessageEvent {
    open spec fn kind(&self) -> Events {
        Events::GroupMessage
    }

    open spec fn cancelled(&self) -> bool {
        self.canceld.is_set()
    }

    open spec fn after_cancel(&self) -> GroupMessageEvent {
        GroupMessageEvent { canceld: self.canceld.after_set(), ..*self }
    }

    fn get_type(&self) -> (kind: Events)
        ensures
            kind == Events::GroupMessage,
    {
        Events::GroupMessage
    }

    fn is_cancel(&self) -> (cancelled: bool)
        ensures
            cancelled == self.canceld.is_set(),
    {
        self.canceld.get()
    }

    fn cancel(&mut self)
        ensures
            final(self).canceld.is_set(),
            *final(self) == (GroupMessageEvent {
                canceld: old(self).canceld.after_set(),
                ..*old(self)
            }),
    {
        proof {
            self.canceld.lemma_set_is_idempotent();
        }
        self.canceld.set();
    }

    proof fn lemma_cancel_is_idempotent(&self) {
        self.canceld.lemma_set_is_idempotent();
    }
}

impl GroupContext for GroupMessageEvent {}

/// A message arrived in a discussion.
#[derive(Debug)]
pub struct DiscussMessageEvent {
    pub canceld: Cancellation,
    pub sub_type: i32,
    pub msg_id: i32,
    pub discuss_id: i64,
    pub user_id: i64,
    pub msg: String,
    pub font: i32,
}

impl DiscussMessageEvent {
    /// The event that the host's arguments describe, not cancelled. `msg` is
    /// a length-prefixed text; the numbers are taken as they are.
    pub fn new(
        sub_type: i32,
        msg_id: i32,
        discuss_id: i64,
        user_id: i64,
        msg: &[u8],
        font: i32,
    ) -> (r: Result<DiscussMessageEvent, DecodeFailure>)
        ensures
            match text_argument(msg@) {
                Ok(text) => {
                    &&& r matches Ok(event)
                    &&& !event.cancelled()
                    &&& event.sub_type == sub_type
                    &&& event.msg_id == msg_id
                    &&& event.discuss_id == discuss_id
                    &&& event.user_id == user_id
                    &&& event.msg@ == text
                    &&& event.font == font
                },
                Err(failure) => r matches Err(e) && e == failure,
            },
    {
        let msg = match read_text_argument(msg) {
            Ok(msg) => msg,
            Err(failure) => {
                return Err(failure);
            },
        };
        Ok(
            DiscussMessageEvent {
                canceld: Cancellation::unset(),
                sub_type,
                msg_id,
                discuss_id,
                user_id,
                msg,
                font,
            },
        )
    }
}

impl Event for DiscussMessageEvent {
    open spec fn kind(&self) -> Events {
        Events::DiscussMessage
    }

    open spec fn cancelled(&self) -> bool {
        self.canceld.is_set()
    }

    open spec fn after_cancel(&self) -> DiscussMessageEvent {
        DiscussMessageEvent { canceld: self.canceld.after_set(), ..*self }
    }

    fn get_type(&self) -> (kind: Events)
        ensures
            kind == Events::DiscussMessage,
    {
        Events::DiscussMessage
    }

    fn is_cancel(&self) -> (cancelled: bool)
        ensures
            cancelled == self.canceld.is_set(),
    {
        self.canceld.get()
    }

    fn cancel(&mut self)
        ensures
            final(self).canceld.is_set(),
            *final(self) == (DiscussMessageEvent {
                canceld: old(self).canceld.after_set(),
                ..*old(self)
            }),
    {
        proof {
            self.canceld.lemma_set_is_idempotent();
        }
        self.canceld.set();
    }

    proof fn lemma_cancel_is_idempotent(&self) {
        self.canceld.lemma_set_is_idempotent();
    }
}

} // verus!
