//! What happens to a group and its members.

use crate::error::{DecodeCause, DecodeFailure, DecodeStage};
use crate::events::{Cancellation, Event, Events, GroupContext};
use crate::targets::{base64_payload, file_record, File};
use vstd::prelude::*;

verus! {

/// A file was uploaded to a group.
#[derive(Debug)]
pub struct GroupUploadEvent {
    pub canceld: Cancellation,
    pub sub_type: i32,
    pub send_time: i32,
    pub group_id: i64,
    pub user_id: i64,
    pub file: File,
}

impl GroupUploadEvent {
    /// The event that the host's arguments describe, not cancelled. `file`
    /// is the base64 envelope of a file descriptor; the numbers are taken as
    /// they are.
    pub fn new(sub_type: i32, send_time: i32, group_id: i64, user_id: i64, file: &[u8]) -> (r:
        Result<GroupUploadEvent, DecodeFailure>)
        ensures
            match base64_payload(file@) {
                None => r matches Err(e) && e == DecodeFailure::at(
                    DecodeStage::Envelope,
                    DecodeCause::MalformedEnvelope,
                ),
                Some(payload) => match file_record(payload) {
                    Err(failure) => r matches Err(e) && e == failure,
                    Ok(record) => {
                        &&& r matches Ok(event)
                        &&& !event.cancelled()
                        &&& event.sub_type == sub_type
                        &&& event.send_time == send_time
                        &&& event.group_id == group_id
                        &&& event.user_id == user_id
                        &&& event.file@ == record
                    },
                },
            },
    {
        let file = match File::decode(file) {
            Ok(file) => file,
            Err(failure) => {
                return Err(failure);
            },
        };
        Ok(
            GroupUploadEvent {
                canceld: Cancellation::unset(),
                sub_type,
                send_time,
                group_id,
                user_id,
                file,
            },
        )
    }
}

impl Event for GroupUploadEvent {
    open spec fn kind(&self) -> Events {
        Events::GroupUpload
    }

    open spec fn cancelled(&self) -> bool {
        self.canceld.is_set()
    }

    open spec fn after_cancel(&self) -> GroupUploadEvent {
        GroupUploadEvent { canceld: self.canceld.after_set(), ..*self }
    }

    fn get_type(&self) -> (kind: Events)
        ensures
            kind == Events::GroupUpload,
    {
        Events::GroupUpload
    }

    fn is_cancel(&self) -> (cancelled: bool)
        ensures
            cancelled == self.canceld.is_set(),
    {
        self.canceld.get()
    }

    fn cancel(&mut self)
        ensures
            final(self).canceld.is_set(),
            *final(self) == (GroupUploadEvent {
                canceld: old(self).canceld.after_set(),
                ..*old(self)
            }),
    {
        proof {
            self.canceld.lemma_set_is_idempotent();
        }
        self.canceld.set();
    }

    proof fn lemma_cancel_is_idempotent(&self) {
        self.canceld.lemma_set_is_idempotent();
    }
}

impl GroupContext for GroupUploadEvent {}

/// A member became an administrator of a group or stopped being one.
#[derive(Debug)]
pub struct GroupAdminEvent {
    pub canceld: Cancellation,
    pub sub_type: i32,
    pub send_time: i32,
    pub group_id: i64,
    pub user_id: i64,
}

impl GroupAdminEvent {
    /// The event that the host's arguments describe, not cancelled.
    pub fn new(
        sub_type: i32,
        send_time: i32,
        group_id: i64,
        user_id: i64,
    ) -> (event: GroupAdminEvent)
        ensures
            !event.cancelled(),
            event.sub_type == sub_type,
            event.send_time == send_time,
            event.group_id == group_id,
            event.user_id == user_id,
    {
        GroupAdminEvent { canceld: Cancellation::unset(), sub_type, send_time, group_id, user_id }
    }
}

impl Event for GroupAdminEvent {
    open spec fn kind(&self) -> Events {
        Events::GroupAdmin
    }

    open spec fn cancelled(&self) -> bool {
        self.canceld.is_set()
    }

    open spec fn after_cancel(&self) -> GroupAdminEvent {
        GroupAdminEvent { canceld: self.canceld.after_set(), ..*self }
    }

    fn get_type(&self) -> (kind: Events)
        ensures
            kind == Events::GroupAdmin,
    {
        Events::GroupAdmin
    }

    fn is_cancel(&self) -> (cancelled: bool)
        ensures
            cancelled == self.canceld.is_set(),
    {
        self.canceld.get()
    }

    fn cancel(&mut self)
        ensures
            final(self).canceld.is_set(),
            *final(self) == (GroupAdminEvent {
                canceld: old(self).canceld.after_set(),
                ..*old(self)
            }),
    {
        proof {
            self.canceld.lemma_set_is_idempotent();
        }
        self.canceld.set();
    }

    proof fn lemma_cancel_is_idempotent(&self) {
        self.canceld.lemma_set_is_idempotent();
    }
}

impl GroupContext for GroupAdminEvent {}

/// A member joined a group.
#[derive(Debug)]
pub struct GroupMemberIncreaseEvent {
    pub canceld: Cancellation,
    pub sub_type: i32,
    pub send_time: i32,
    pub group_id: i64,
    pub operate_user_id: i64,
    pub being_operate_user_id: i64,
}

impl GroupMemberIncreaseEvent {
    /// The event that the host's arguments describe, not cancelled.
    pub fn new(
        sub_type: i32,
        send_time: i32,
        group_id: i64,
        operate_user_id: i64,
        being_operate_user_id: i64,
    ) -> (event: GroupMemberIncreaseEvent)
        ensures
            !event.cancelled(),
            event.sub_type == sub_type,
            event.send_time == send_time,
            event.group_id == group_id,
            event.operate_user_id == operate_user_id,
            event.being_operate_user_id == being_operate_user_id,
    {
        GroupMemberIncreaseEvent {
            canceld: Cancellation::unset(),
            sub_type,
            send_time,
            group_id,
            operate_user_id,
            being_operate_user_id,
        }
    }
}

impl Event for GroupMemberIncreaseEvent {
    open spec fn kind(&self) -> Events {
        Events::GroupMemberIncrease
    }

    open spec fn cancelled(&self) -> bool {
        self.canceld.is_set()
    }

    open spec fn after_cancel(&self) -> GroupMemberIncreaseEvent {
        GroupMemberIncreaseEvent { canceld: self.canceld.after_set(), ..*self }
    }

    fn get_type(&self) -> (kind: Events)
        ensures
            kind == Events::GroupMemberIncrease,
    {
        Events::GroupMemberIncrease
    }

    fn is_cancel(&self) -> (cancelled: bool)
        ensures
            cancelled == self.canceld.is_set(),
    {
        self.canceld.get()
    }

    fn cancel(&mut self)
        ensures
            final(self).canceld.is_set(),
            *final(self) == (GroupMemberIncreaseEvent {
                canceld: old(self).canceld.after_set(),
                ..*old(self)
            }),
    {
        proof {
            self.canceld.lemma_set_is_idempotent();
        }
        self.canceld.set();
    }

    proof fn lemma_cancel_is_idempotent(&self) {
        self.canceld.lemma_set_is_idempotent();
    }
}

impl GroupContext for GroupMemberIncreaseEvent {}

/// A member of a group was silenced or allowed to speak again.
#[derive(Debug)]
pub struct GroupBanEvent {
    pub canceld: Cancellation,
    pub sub_type: i32,
    pub send_time: i32,
    pub group_id: i64,
    pub operate_user_id: i64,
    pub being_operate_user_id: i64,
    pub time: i64,
}

impl GroupBanEvent {
    /// The event that the host's arguments describe, not cancelled.
    pub fn new(
        sub_type: i32,
        send_time: i32,
        group_id: i64,
        operate_user_id: i64,
        being_operate_user_id: i64,
        time: i64,
    ) -> (event: GroupBanEvent)
        ensures
            !event.cancelled(),
            event.sub_type == sub_type,
            event.send_time == send_time,
            event.group_id == group_id,
            event.operate_user_id == operate_user_id,
            event.being_operate_user_id == being_operate_user_id,
            event.time == time,
    {
        GroupBanEvent {
            canceld: Cancellation::unset(),
            sub_type,
            send_time,
            group_id,
            operate_user_id,
            being_operate_user_id,
            time,
        }
    }
}

impl Event for GroupBanEvent {
    open spec fn kind(&self) -> Events {
        Events::GroupBan
    }

    open spec fn cancelled(&self) -> bool {
        self.canceld.is_set()
    }

    open spec fn after_cancel(&self) -> GroupBanEvent {
        GroupBanEvent { canceld: self.canceld.after_set(), ..*self }
    }

    fn get_type(&self) -> (kind: Events)
        ensures
            kind == Events::GroupBan,
    {
        Events::GroupBan
    }

    fn is_cancel(&self) -> (cancelled: bool)
        ensures
            cancelled == self.canceld.is_set(),
    {
        self.canceld.get()
    }

    fn cancel(&mut self)
        ensures
            final(self).canceld.is_set(),
            *final(self) == (GroupBanEvent {
                canceld: old(self).canceld.after_set(),
                ..*old(self)
            }),
    {
        proof {
            self.canceld.lemma_set_is_idempotent();
        }
        self.canceld.set();
    }

    proof fn lemma_cancel_is_idempotent(&self) {
        self.canceld.lemma_set_is_idempotent();
    }
}

impl GroupContext for GroupBanEvent {}

} // verus!
