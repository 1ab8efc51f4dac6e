//! The events that the host reports, and what all of them can do.

use crate::cursor::{text_read, ByteCursor};
use crate::error::{DecodeFailure, DecodeStage};
use crate::targets::{Anonymous, BanRequest, ReadString};
use vstd::prelude::*;

pub mod group;
pub mod group_member_decrease;
pub mod lifecycle;
pub mod message;
pub mod request;

pub use group::{GroupAdminEvent, GroupBanEvent, GroupMemberIncreaseEvent, GroupUploadEvent};
pub use group_member_decrease::GroupMemberDecreaseEvent;
pub use lifecycle::{DisableEvent, ExitEvent, StartEvent};
pub use message::{DiscussMessageEvent, GroupMessageEvent, PrivateMessageEvent};
pub use request::{AddFriendRequestEvent, AddGroupRequestEvent, FriendAddEvent};

verus! {

/// The kinds of event.
#[derive(Clone, Copy, Debug, PartialEq, Eq, Structural)]
pub enum Events {
    /// The host has started.
    Start,
    /// The host is about to exit.
    Exit,
    /// The plugin has been switched off.
    Disable,
    /// A private message arrived.
    PrivateMessage,
    /// A message arrived in a group.
    GroupMessage,
    /// A message arrived in a discussion.
    DiscussMessage,
    /// A file was uploaded to a group.
    GroupUpload,
    /// A member became an administrator of a group or stopped being one.
    GroupAdmin,
    /// A member left a group or was removed from it.
    GroupMemberDecrease,
    /// A member joined a group.
    GroupMemberIncrease,
    /// A member of a group was silenced or allowed to speak again.
    GroupBan,
    /// A friend was added.
    FriendAdd,
    /// Someone asks to become a friend.
    AddFriendRequest,
    /// Someone asks to join a group, or invites the account into one.
    AddGroupRequest,
}

/// The mark that an event has been cancelled. It starts unset, can be set,
/// and offers no way back.
#[derive(Debug, PartialEq, Eq)]
pub struct Cancellation {
    set: bool,
}

impl Cancellation {
    /// Whether the mark is set.
    pub closed spec fn is_set(&self) -> bool {
        self.set
    }

    /// The mark once it has been set.
    pub closed spec fn after_set(&self) -> Cancellation {
        Cancellation { set: true }
    }

    /// The mark of a new event: not set.
    pub(crate) fn unset() -> (mark: Cancellation)
        ensures
            !mark.is_set(),
    {
        Cancellation { set: false }
    }

    /// Whether the mark is set.
    pub fn get(&self) -> (set: bool)
        ensures
            set == self.is_set(),
    {
        self.set
    }

    /// Sets the mark.
    pub fn set(&mut self)
        ensures
            *final(self) == old(self).after_set(),
            final(self).is_set(),
    {
        self.set = true;
    }

    /// A mark that has been set is set, and setting it again changes nothing.
    pub proof fn lemma_set_is_idempotent(&self)
        ensures
            self.after_set().is_set(),
            self.after_set().after_set() == self.after_set(),
            self.is_set() ==> self.after_set() == *self,
    {
    }
}

/// What every event offers: its kind, and a cancellation that cannot be
/// taken back.
pub trait Event: Sized {
    /// The kind of the event.
    spec fn kind(&self) -> Events;

    /// Whether the event has been cancelled.
    spec fn cancelled(&self) -> bool;

    /// The event once it has been cancelled.
    spec fn after_cancel(&self) -> Self;

    /// The kind of the event.
    fn get_type(&self) -> (kind: Events)
        ensures
            kind == self.kind(),
    ;

    /// Whether the event has been cancelled.
    fn is_cancel(&self) -> (cancelled: bool)
        ensures
            cancelled == self.cancelled(),
    ;

    /// Cancels the event. Nothing else about it changes, and an event that
    /// was cancelled before stays as it was.
    fn cancel(&mut self)
        ensures
            *final(self) == old(self).after_cancel(),
            final(self).cancelled(),
            final(self).kind() == old(self).kind(),
            old(self).cancelled() ==> *final(self) == *old(self),
    ;

    /// A cancelled event is cancelled and keeps its kind, and cancelling it
    /// once more changes nothing.
    proof fn lemma_cancel_is_idempotent(&self)
        ensures
            self.after_cancel().cancelled(),
            self.after_cancel().kind() == self.kind(),
            self.after_cancel().after_cancel() == self.after_cancel(),
            self.cancelled() ==> self.after_cancel() == *self,
    ;
}

/// An event that happened in a group.
pub trait GroupContext: Event {
    /// The request that silences the anonymous `sender` for `duration`
    /// seconds. Group and token are those of the sender, passed on as they are.
    fn ban_anonymous(&self, sender: &Anonymous, duration: i64) -> (request: BanRequest)
        ensures
            request.group_id == sender.group_id,
            request.flag@ == sender.flag@,
            request.duration == duration,
    {
        sender.ban(duration)
    }
}

/// The text that an argument of an event holds: `raw` read as one
/// length-prefixed text, whatever follows it.
pub open spec fn text_argument(raw: Seq<u8>) -> Result<Seq<char>, DecodeFailure> {
    match text_read(raw) {
        (Ok(text), _) => Ok(text),
        (Err(cause), _) => Err(DecodeFailure::at(DecodeStage::Text, cause)),
    }
}

/// Decodes a text argument of an event.
pub fn read_text_argument(raw: &[u8]) -> (r: Result<String, DecodeFailure>)
    ensures
        match text_argument(raw@) {
            Ok(text) => r matches Ok(s) && s@ == text,
            Err(failure) => r == Err::<String, DecodeFailure>(failure),
        },
{
    let mut cursor = ByteCursor::new(vstd::slice::slice_to_vec(raw));
    match cursor.read_string() {
        Ok(text) => Ok(text),
        Err(cause) => Err(DecodeFailure::new(DecodeStage::Text, cause)),
    }
}

} // verus!
