use byteorder::{BigEndian, WriteBytesExt};
use coolq_sdk_rust::error::{DecodeCause, DecodeFailure, DecodeStage};
use coolq_sdk_rust::events::group::{
    GroupAdminEvent, GroupBanEvent, GroupMemberIncreaseEvent, GroupUploadEvent,
};
use coolq_sdk_rust::events::group_member_decrease::GroupMemberDecreaseEvent;
use coolq_sdk_rust::events::lifecycle::{DisableEvent, ExitEvent, StartEvent};
use coolq_sdk_rust::events::message::{
    DiscussMessageEvent, GroupMessageEvent, PrivateMessageEvent,
};
use coolq_sdk_rust::events::request::{
    AddFriendRequestEvent, AddGroupRequestEvent, FriendAddEvent,
};
use coolq_sdk_rust::events::{read_text_argument, Event, Events, GroupContext};
use coolq_sdk_rust::targets::{Anonymous, Flag};

fn text(s: &str) -> Vec<u8> {
    let mut out = Vec::new();
    out.write_i16::<BigEndian>(s.len() as i16).unwrap();
    out.extend_from_slice(s.as_bytes());
    out
}

fn sender_envelope(user_id: i64, name: &str) -> Vec<u8> {
    let mut payload = Vec::new();
    payload.write_i64::<BigEndian>(user_id).unwrap();
    payload.extend_from_slice(&text(name));
    base64::encode(&payload).into_bytes()
}

fn file_envelope(id: &str, name: &str, size: i64, busid: i64) -> Vec<u8> {
    let mut payload = Vec::new();
    payload.extend_from_slice(&text(id));
    payload.extend_from_slice(&text(name));
    payload.write_i64::<BigEndian>(size).unwrap();
    payload.write_i64::<BigEndian>(busid).unwrap();
    base64::encode(&payload).into_bytes()
}

fn failure(stage: DecodeStage, cause: DecodeCause) -> DecodeFailure {
    DecodeFailure { stage, cause }
}

#[test]
fn a_new_event_is_not_cancelled() {
    let event = GroupMemberDecreaseEvent::new(1, 1_600_000_000, 10, 20, 30);
    assert!(!event.is_cancel());
    assert_eq!(event.sub_type, 1);
    assert_eq!(event.send_time, 1_600_000_000);
    assert_eq!(event.group_id, 10);
    assert_eq!(event.operate_user_id, 20);
    assert_eq!(event.being_operate_user_id, 30);
}

#[test]
fn cancel_sets_the_flag_and_keeps_the_fields() {
    let mut event = GroupMemberDecreaseEvent::new(2, 3, 4, 5, 6);
    event.cancel();
    assert!(event.is_cancel());
    assert_eq!(event.get_type(), Events::GroupMemberDecrease);
    assert_eq!(event.sub_type, 2);
    assert_eq!(event.send_time, 3);
    assert_eq!(event.group_id, 4);
    assert_eq!(event.operate_user_id, 5);
    assert_eq!(event.being_operate_user_id, 6);
}

#[test]
fn cancelling_twice_is_cancelling_once() {
    let mut once = GroupMemberDecreaseEvent::new(2, 3, 4, 5, 6);
    once.cancel();
    let mut twice = GroupMemberDecreaseEvent::new(2, 3, 4, 5, 6);
    twice.cancel();
    twice.cancel();
    assert!(twice.is_cancel());
    assert_eq!(once.canceld, twice.canceld);
    assert_eq!(twice.sub_type, 2);
    assert_eq!(twice.being_operate_user_id, 6);
}

#[test]
fn every_event_reports_its_kind() {
    assert_eq!(StartEvent::new().get_type(), Events::Start);
    assert_eq!(ExitEvent::new().get_type(), Events::Exit);
    assert_eq!(DisableEvent::new().get_type(), Events::Disable);
    assert_eq!(
        PrivateMessageEvent::new(0, 0, 0, &text(""), 0).unwrap().get_type(),
        Events::PrivateMessage
    );
    assert_eq!(
        GroupMessageEvent::new(0, 0, 0, 0, b"", &text(""), 0).unwrap().get_type(),
        Events::GroupMessage
    );
    assert_eq!(
        DiscussMessageEvent::new(0, 0, 0, 0, &text(""), 0).unwrap().get_type(),
        Events::DiscussMessage
    );
    assert_eq!(
        GroupUploadEvent::new(0, 0, 0, 0, &file_envelope("", "", 0, 0)).unwrap().get_type(),
        Events::GroupUpload
    );
    assert_eq!(GroupAdminEvent::new(0, 0, 0, 0).get_type(), Events::GroupAdmin);
    assert_eq!(
        GroupMemberDecreaseEvent::new(0, 0, 0, 0, 0).get_type(),
        Events::GroupMemberDecrease
    );
    assert_eq!(
        GroupMemberIncreaseEvent::new(0, 0, 0, 0, 0).get_type(),
        Events::GroupMemberIncrease
    );
    assert_eq!(GroupBanEvent::new(0, 0, 0, 0, 0, 0).get_type(), Events::GroupBan);
    assert_eq!(FriendAddEvent::new(0, 0, 0).get_type(), Events::FriendAdd);
    assert_eq!(
        AddFriendRequestEvent::new(0, 0, 0, &text(""), b"").unwrap().get_type(),
        Events::AddFriendRequest
    );
    assert_eq!(
        AddGroupRequestEvent::new(0, 0, 0, 0, &text(""), b"").unwrap().get_type(),
        Events::AddGroupRequest
    );
}

#[test]
fn every_event_can_be_cancelled() {
    let mut start = StartEvent::new();
    assert!(!start.is_cancel());
    start.cancel();
    assert!(start.is_cancel());

    let mut exit = ExitEvent::new();
    exit.cancel();
    exit.cancel();
    assert!(exit.is_cancel());

    let mut disable = DisableEvent::new();
    assert!(!disable.is_cancel());
    disable.cancel();
    assert!(disable.is_cancel());

    let mut admin = GroupAdminEvent::new(1, 2, 3, 4);
    admin.cancel();
    assert!(admin.is_cancel());
    assert_eq!((admin.sub_type, admin.send_time, admin.group_id, admin.user_id), (1, 2, 3, 4));

    let mut ban = GroupBanEvent::new(1, 2, 3, 4, 5, 6);
    assert!(!ban.is_cancel());
    ban.cancel();
    assert!(ban.is_cancel());
    assert_eq!(ban.time, 6);

    let mut message = PrivateMessageEvent::new(1, 2, 3, &text("hi"), 4).unwrap();
    message.cancel();
    assert!(message.is_cancel());
    assert_eq!(message.msg, "hi");
}

#[test]
fn private_message_takes_its_arguments() {
    let event = PrivateMessageEvent::new(11, 42, 100000, &text("abc"), 0).unwrap();
    assert!(!event.is_cancel());
    assert_eq!(event.sub_type, 11);
    assert_eq!(event.msg_id, 42);
    assert_eq!(event.user_id, 100000);
    assert_eq!(event.msg, "abc");
    assert_eq!(event.font, 0);
}

#[test]
fn private_message_with_a_bad_text_fails() {
    assert_eq!(
        PrivateMessageEvent::new(1, 2, 3, &[0x00, 0x04, b'a'], 0).err(),
        Some(failure(DecodeStage::Text, DecodeCause::TruncatedInput))
    );
    assert_eq!(
        PrivateMessageEvent::new(1, 2, 3, &[0x00, 0x01, 0xfe], 0).err(),
        Some(failure(DecodeStage::Text, DecodeCause::InvalidEncoding))
    );
    assert_eq!(
        PrivateMessageEvent::new(1, 2, 3, &[], 0).err(),
        Some(failure(DecodeStage::Text, DecodeCause::TruncatedInput))
    );
}

#[test]
fn text_argument_ignores_what_follows_the_text() {
    let mut raw = text("abc");
    raw.extend_from_slice(b"tail");
    assert_eq!(read_text_argument(&raw), Ok(String::from("abc")));
    assert_eq!(read_text_argument(&[0xff, 0xff, 1, 2]), Ok(String::new()));
}

#[test]
fn group_message_without_a_flag_has_no_anonymous_sender() {
    let event = GroupMessageEvent::new(1, 7, 500, 600, b"", &text("hello"), 3).unwrap();
    assert!(!event.is_anonymous());
    assert_eq!(event.anonymous, None);
    assert_eq!(event.sub_type, 1);
    assert_eq!(event.msg_id, 7);
    assert_eq!(event.group_id, 500);
    assert_eq!(event.user_id, 600);
    assert_eq!(event.msg, "hello");
    assert_eq!(event.font, 3);
    assert!(!event.is_cancel());
}

#[test]
fn group_message_decodes_its_anonymous_sender() {
    let flag = sender_envelope(80000000, "mask");
    let event = GroupMessageEvent::new(1, 7, 500, 80000000, &flag, &text("hello"), 3).unwrap();
    assert!(event.is_anonymous());
    assert_eq!(
        event.anonymous,
        Some(Anonymous {
            group_id: 500,
            user_id: 80000000,
            name: String::from("mask"),
            flag: Flag::from_bytes(&flag),
        })
    );
    assert_eq!(event.msg, "hello");
}

#[test]
fn group_message_reports_the_first_argument_that_fails() {
    assert_eq!(
        GroupMessageEvent::new(1, 7, 500, 600, b"!", &[0x00, 0x09], 3).err(),
        Some(failure(DecodeStage::Envelope, DecodeCause::MalformedEnvelope))
    );
    assert_eq!(
        GroupMessageEvent::new(1, 7, 500, 600, b"AAAA", &text("ok"), 3).err(),
        Some(failure(DecodeStage::SenderUserId, DecodeCause::TruncatedInput))
    );
    assert_eq!(
        GroupMessageEvent::new(1, 7, 500, 600, b"", &[0x00, 0x09], 3).err(),
        Some(failure(DecodeStage::Text, DecodeCause::TruncatedInput))
    );
}

#[test]
fn discuss_message_takes_its_arguments() {
    let event = DiscussMessageEvent::new(1, 2, 3, 4, &text("d"), 5).unwrap();
    assert_eq!(
        (event.sub_type, event.msg_id, event.discuss_id, event.user_id, event.font),
        (1, 2, 3, 4, 5)
    );
    assert_eq!(event.msg, "d");
    assert!(!event.is_cancel());
    assert_eq!(
        DiscussMessageEvent::new(1, 2, 3, 4, &[0x01], 5).err(),
        Some(failure(DecodeStage::Text, DecodeCause::TruncatedInput))
    );
}

#[test]
fn group_upload_decodes_its_file() {
    let event =
        GroupUploadEvent::new(1, 1_500_000_000, 9, 8, &file_envelope("f1", "a.png", 1024, 7))
            .unwrap();
    assert_eq!(
        (event.sub_type, event.send_time, event.group_id, event.user_id),
        (1, 1_500_000_000, 9, 8)
    );
    assert_eq!(event.file.id, "f1");
    assert_eq!(event.file.name, "a.png");
    assert_eq!(event.file.size, 1024);
    assert_eq!(event.file.busid, 7);
    assert!(!event.is_cancel());
}

#[test]
fn group_upload_with_a_bad_file_fails() {
    assert_eq!(
        GroupUploadEvent::new(1, 2, 3, 4, b"?").err(),
        Some(failure(DecodeStage::Envelope, DecodeCause::MalformedEnvelope))
    );
    assert_eq!(
        GroupUploadEvent::new(1, 2, 3, 4, b"").err(),
        Some(failure(DecodeStage::FileId, DecodeCause::TruncatedInput))
    );
}

#[test]
fn plain_events_take_their_arguments() {
    let increase = GroupMemberIncreaseEvent::new(1, 2, 3, 4, 5);
    assert_eq!(
        (
            increase.sub_type,
            increase.send_time,
            increase.group_id,
            increase.operate_user_id,
            increase.being_operate_user_id
        ),
        (1, 2, 3, 4, 5)
    );
    assert!(!increase.is_cancel());

    let ban = GroupBanEvent::new(1, 2, 3, 4, 5, 600);
    assert_eq!(
        (
            ban.sub_type,
            ban.send_time,
            ban.group_id,
            ban.operate_user_id,
            ban.being_operate_user_id,
            ban.time
        ),
        (1, 2, 3, 4, 5, 600)
    );

    let friend = FriendAddEvent::new(1, 2, 3);
    assert_eq!((friend.sub_type, friend.send_time, friend.user_id), (1, 2, 3));
    assert!(!friend.is_cancel());
}

#[test]
fn requests_keep_their_flag_byte_for_byte() {
    let flag = [0x01, 0xff, 0x00, 0x80];
    let friend = AddFriendRequestEvent::new(1, 2, 3, &text("please"), &flag).unwrap();
    assert_eq!((friend.sub_type, friend.send_time, friend.user_id), (1, 2, 3));
    assert_eq!(friend.msg, "please");
    assert_eq!(friend.flag.as_bytes(), &flag[..]);
    assert!(!friend.is_cancel());

    let group = AddGroupRequestEvent::new(1, 2, 3, 4, &text("let me in"), &flag).unwrap();
    assert_eq!((group.sub_type, group.send_time, group.group_id, group.user_id), (1, 2, 3, 4));
    assert_eq!(group.msg, "let me in");
    assert_eq!(group.flag.as_bytes(), &flag[..]);

    assert_eq!(
        AddFriendRequestEvent::new(1, 2, 3, &[0x7f], &flag).err(),
        Some(failure(DecodeStage::Text, DecodeCause::TruncatedInput))
    );
    assert_eq!(
        AddGroupRequestEvent::new(1, 2, 3, 4, &[0x00, 0x01, 0xc0], &flag).err(),
        Some(failure(DecodeStage::Text, DecodeCause::InvalidEncoding))
    );
}

#[test]
fn ban_anonymous_forwards_the_sender() {
    let flag = sender_envelope(80000000, "mask");
    let event = GroupMessageEvent::new(1, 7, 500, 80000000, &flag, &text("spam"), 0).unwrap();
    let sender = event.anonymous.as_ref().unwrap();
    let request = event.ban_anonymous(sender, 3600);
    assert_eq!(request.group_id, 500);
    assert_eq!(request.flag.as_bytes(), &flag[..]);
    assert_eq!(request.duration, 3600);

    let other = GroupAdminEvent::new(1, 2, 999, 4);
    let request = other.ban_anonymous(sender, 60);
    assert_eq!(request.group_id, 500);
    assert_eq!(request.duration, 60);
}
