//! The table of events: for each kind, the name of its type, the name that
//! its entry points share, and the arguments that the host passes.

use crate::events::Events;
use vstd::prelude::*;
use vstd::string::StringExecFns;

verus! {

/// The types that cross the native boundary.
#[derive(Clone, Copy, Debug, PartialEq, Eq, Structural)]
pub enum NativeType {
    /// A 32-bit integer.
    Int32,
    /// A 64-bit integer.
    Int64,
    /// A pointer to a byte string.
    Bytes,
}

/// What an argument holds, and so how it becomes a field of the event.
#[derive(Clone, Copy, Debug, PartialEq, Eq, Structural)]
pub enum Content {
    /// A number, taken as it is.
    Number,
    /// A length-prefixed text.
    Text,
    /// The base64 envelope of a record, ended by a zero byte.
    Envelope,
    /// A token of the host, ended by a zero byte and kept as it is.
    Token,
}

/// What an argument of an entry point is: its name, its native type, and
/// what it holds.
pub struct ArgumentRecord {
    pub name: Seq<char>,
    pub ty: NativeType,
    pub content: Content,
}

/// A 32-bit number called `name`.
pub open spec fn int32(name: Seq<char>) -> ArgumentRecord {
    ArgumentRecord { name, ty: NativeType::Int32, content: Content::Number }
}

/// A 64-bit number called `name`.
pub open spec fn int64(name: Seq<char>) -> ArgumentRecord {
    ArgumentRecord { name, ty: NativeType::Int64, content: Content::Number }
}

/// A pointer called `name` to bytes that hold `content`.
pub open spec fn pointer(name: Seq<char>, content: Content) -> ArgumentRecord {
    ArgumentRecord { name, ty: NativeType::Bytes, content }
}

/// The name of the event type that stands for `kind` in a handler's parameter.
pub open spec fn event_name(kind: Events) -> Seq<char> {
    match kind {
        Events::Start => "StartEvent"@,
        Events::Exit => "ExitEvent"@,
        Events::Disable => "DisableEvent"@,
        Events::PrivateMessage => "PrivateMessageEvent"@,
        Events::GroupMessage => "GroupMessageEvent"@,
        Events::DiscussMessage => "DiscussMessageEvent"@,
        Events::GroupUpload => "GroupUploadEvent"@,
        Events::GroupAdmin => "GroupAdminEvent"@,
        Events::GroupMemberDecrease => "GroupMemberDecreaseEvent"@,
        Events::GroupMemberIncrease => "GroupMemberIncreaseEvent"@,
        Events::GroupBan => "GroupBanEvent"@,
        Events::FriendAdd => "FriendAddEvent"@,
        Events::AddFriendRequest => "AddFriendRequestEvent"@,
        Events::AddGroupRequest => "AddGroupRequestEvent"@,
    }
}

/// The name that the entry points of `kind` share, before the tier is added.
pub open spec fn export_base(kind: Events) -> Seq<char> {
    match kind {
        Events::Start => "on_start"@,
        Events::Exit => "on_exit"@,
        Events::Disable => "on_disable"@,
        Events::PrivateMessage => "on_private_msg"@,
        Events::GroupMessage => "on_group_msg"@,
        Events::DiscussMessage => "on_discuss_msg"@,
        Events::GroupUpload => "on_group_upload"@,
        Events::GroupAdmin => "on_group_admin"@,
        Events::GroupMemberDecrease => "on_group_member_decrease"@,
        Events::GroupMemberIncrease => "on_group_member_increase"@,
        Events::GroupBan => "on_group_ban"@,
        Events::FriendAdd => "on_friend_add"@,
        Events::AddFriendRequest => "on_add_friend_request"@,
        Events::AddGroupRequest => "on_add_group_request"@,
    }
}

/// The arguments that the host passes for `kind`, in order.
pub open spec fn signature(kind: Events) -> Seq<ArgumentRecord> {
    match kind {
        Events::Start | Events::Exit | Events::Disable => seq![],
        Events::PrivateMessage => seq![
            int32("sub_type"@),
            int32("msg_id"@),
            int64("user_id"@),
            pointer("msg"@, Content::Text),
            int32("font"@),
        ],
        Events::GroupMessage => seq![
            int32("sub_type"@),
            int32("msg_id"@),
            int64("group_id"@),
            int64("user_id"@),
            pointer("anonymous_flag"@, Content::Envelope),
            pointer("msg"@, Content::Text),
            int32("font"@),
        ],
        Events::DiscussMessage => seq![
            int32("sub_type"@),
            int32("msg_id"@),
            int64("discuss_id"@),
            int64("user_id"@),
            pointer("msg"@, Content::Text),
            int32("font"@),
        ],
        Events::GroupUpload => seq![
            int32("sub_type"@),
            int32("send_time"@),
            int64("group_id"@),
            int64("user_id"@),
            pointer("file"@, Content::Envelope),
        ],
        Events::GroupAdmin => seq![
            int32("sub_type"@),
            int32("send_time"@),
            int64("group_id"@),
            int64("user_id"@),
        ],
        Events::GroupMemberDecrease | Events::GroupMemberIncrease => seq![
            int32("sub_type"@),
            int32("send_time"@),
            int64("group_id"@),
            int64("operate_user_id"@),
            int64("being_operate_user_id"@),
        ],
        Events::GroupBan => seq![
            int32("sub_type"@),
            int32("send_time"@),
            int64("group_id"@),
            int64("operate_user_id"@),
            int64("being_operate_user_id"@),
            int64("time"@),
        ],
        Events::FriendAdd => seq![int32("sub_type"@), int32("send_time"@), int64("user_id"@)],
        Events::AddFriendRequest => seq![
            int32("sub_type"@),
            int32("send_time"@),
            int64("user_id"@),
            pointer("msg"@, Content::Text),
            pointer("flag"@, Content::Token),
        ],
        Events::AddGroupRequest => seq![
            int32("sub_type"@),
            int32("send_time"@),
            int64("group_id"@),
            int64("user_id"@),
            pointer("msg"@, Content::Text),
            pointer("flag"@, Content::Token),
        ],
    }
}

/// Whether building the event of `kind` from its arguments can fail: it can
/// where a text or an envelope has to be decoded.
pub open spec fn decodes(kind: Events) -> bool {
    exists|i: int|
        0 <= i < signature(kind).len() && (#[trigger] signature(kind)[i].content
            == Content::Text || signature(kind)[i].content == Content::Envelope)
}

/// The kind whose event type is called `name`, if there is one.
pub open spec fn kind_named(name: Seq<char>) -> Option<Events> {
    if exists|kind: Events| event_name(kind) == name {
        Some(choose|kind: Events| event_name(kind) == name)
    } else {
        None
    }
}

/// How long each type name is, and the characters that tell apart those of
/// one length.
proof fn lemma_event_name_marks()
    ensures
        event_name(Events::Start).len() == 10,
        event_name(Events::Exit).len() == 9,
        event_name(Events::Disable).len() == 12,
        event_name(Events::PrivateMessage).len() == 19,
        event_name(Events::PrivateMessage)[0] == 'P',
        event_name(Events::GroupMessage).len() == 17,
        event_name(Events::DiscussMessage).len() == 19,
        event_name(Events::DiscussMessage)[0] == 'D',
        event_name(Events::GroupUpload).len() == 16,
        event_name(Events::GroupAdmin).len() == 15,
        event_name(Events::GroupMemberDecrease).len() == 24,
        event_name(Events::GroupMemberDecrease)[11] == 'D',
        event_name(Events::GroupMemberIncrease).len() == 24,
        event_name(Events::GroupMemberIncrease)[11] == 'I',
        event_name(Events::GroupBan).len() == 13,
        event_name(Events::FriendAdd).len() == 14,
        event_name(Events::AddFriendRequest).len() == 21,
        event_name(Events::AddGroupRequest).len() == 20,
{
    reveal_strlit("StartEvent");
    reveal_strlit("ExitEvent");
    reveal_strlit("DisableEvent");
    reveal_strlit("PrivateMessageEvent");
    reveal_strlit("GroupMessageEvent");
    reveal_strlit("DiscussMessageEvent");
    reveal_strlit("GroupUploadEvent");
    reveal_strlit("GroupAdminEvent");
    reveal_strlit("GroupMemberDecreaseEvent");
    reveal_strlit("GroupMemberIncreaseEvent");
    reveal_strlit("GroupBanEvent");
    reveal_strlit("FriendAddEvent");
    reveal_strlit("AddFriendRequestEvent");
    reveal_strlit("AddGroupRequestEvent");
}

/// No two kinds of event share a type name.
pub proof fn lemma_event_names_differ(a: Events, b: Events)
    ensures
        event_name(a) == event_name(b) ==> a == b,
{
    lemma_event_name_marks();
}

/// The type name of a kind leads back to that kind.
pub proof fn lemma_kind_of_event_name(kind: Events)
    ensures
        kind_named(event_name(kind)) == Some(kind),
{
    let found = choose|k: Events| event_name(k) == event_name(kind);
    lemma_event_names_differ(found, kind);
}

/// How long each shared name is, and the characters that tell apart those
/// of one length.
proof fn lemma_export_base_marks()
    ensures
        export_base(Events::Start).len() == 8,
        export_base(Events::Exit).len() == 7,
        export_base(Events::Disable).len() == 10,
        export_base(Events::PrivateMessage).len() == 14,
        export_base(Events::PrivateMessage)[9] == 'e',
        export_base(Events::GroupMessage).len() == 12,
        export_base(Events::GroupMessage)[9] == 'm',
        export_base(Events::DiscussMessage).len() == 14,
        export_base(Events::DiscussMessage)[9] == 's',
        export_base(Events::GroupUpload).len() == 15,
        export_base(Events::GroupAdmin).len() == 14,
        export_base(Events::GroupAdmin)[9] == 'a',
        export_base(Events::GroupMemberDecrease).len() == 24,
        export_base(Events::GroupMemberDecrease)[16] == 'd',
        export_base(Events::GroupMemberIncrease).len() == 24,
        export_base(Events::GroupMemberIncrease)[16] == 'i',
        export_base(Events::GroupBan).len() == 12,
        export_base(Events::GroupBan)[9] == 'b',
        export_base(Events::FriendAdd).len() == 13,
        export_base(Events::AddFriendRequest).len() == 21,
        export_base(Events::AddGroupRequest).len() == 20,
{
    reveal_strlit("on_start");
    reveal_strlit("on_exit");
    reveal_strlit("on_disable");
    reveal_strlit("on_private_msg");
    reveal_strlit("on_group_msg");
    reveal_strlit("on_discuss_msg");
    reveal_strlit("on_group_upload");
    reveal_strlit("on_group_admin");
    reveal_strlit("on_group_member_decrease");
    reveal_strlit("on_group_member_increase");
    reveal_strlit("on_group_ban");
    reveal_strlit("on_friend_add");
    reveal_strlit("on_add_friend_request");
    reveal_strlit("on_add_group_request");
}

/// No two kinds of event share the name of their entry points.
pub proof fn lemma_export_bases_differ(a: Events, b: Events)
    ensures
        export_base(a) == export_base(b) ==> a == b,
{
    lemma_export_base_marks();
    if export_base(a) == export_base(b) {
        assert(export_base(a).len() >= 10 ==> export_base(a)[9] == export_base(b)[9]);
        assert(export_base(a).len() >= 17 ==> export_base(a)[16] == export_base(b)[16]);
    }
}

/// One argument of an entry point.
#[derive(Debug, Clone, PartialEq, Eq)]
pub struct Argument {
    pub name: String,
    pub ty: NativeType,
    pub content: Content,
}

impl View for Argument {
    type V = ArgumentRecord;

    open spec fn view(&self) -> ArgumentRecord {
        ArgumentRecord { name: self.name@, ty: self.ty, content: self.content }
    }
}

/// What a list of arguments holds.
pub open spec fn arguments_of(args: Seq<Argument>) -> Seq<ArgumentRecord> {
    Seq::new(args.len(), |i: int| args[i]@)
}

/// A pointer goes with everything but a number, and a number with no pointer.
pub proof fn lemma_pointers_hold_no_numbers(kind: Events, i: int)
    requires
        0 <= i < signature(kind).len(),
    ensures
        signature(kind)[i].ty == NativeType::Bytes <==> signature(kind)[i].content
            != Content::Number,
{
}

/// What a row of the table holds.
pub struct TableRow {
    pub kind: Events,
    pub name: Seq<char>,
    pub args: Seq<ArgumentRecord>,
    pub result: NativeType,
}

/// The row of `kind`: the name its entry points share, the arguments they
/// take, and the 32-bit integer they return.
pub open spec fn row(kind: Events) -> TableRow {
    TableRow {
        kind,
        name: export_base(kind),
        args: signature(kind),
        result: NativeType::Int32,
    }
}

/// A row of the table.
#[derive(Debug, Clone, PartialEq, Eq)]
pub struct EventFunc {
    pub kind: Events,
    pub name: String,
    pub args: Vec<Argument>,
    pub result: NativeType,
}

impl View for EventFunc {
    type V = TableRow;

    open spec fn view(&self) -> TableRow {
        TableRow {
            kind: self.kind,
            name: self.name@,
            args: arguments_of(self.args@),
            result: self.result,
        }
    }
}

/// Whether `text` reads `word`.
pub(crate) fn reads(text: &String, word: &str) -> (r: bool)
    ensures
        r == (text@ == word@),
{
    *text == String::from_str(word)
}

/// The kind whose event type is called `name`.
pub fn event_kind(name: &str) -> (r: Option<Events>)
    ensures
        r == kind_named(name@),
{
    let text = String::from_str(name);
    let r = if reads(&text, "StartEvent") {
        Some(Events::Start)
    } else if reads(&text, "ExitEvent") {
        Some(Events::Exit)
    } else if reads(&text, "DisableEvent") {
        Some(Events::Disable)
    } else if reads(&text, "PrivateMessageEvent") {
        Some(Events::PrivateMessage)
    } else if reads(&text, "GroupMessageEvent") {
        Some(Events::GroupMessage)
    } else if reads(&text, "DiscussMessageEvent") {
        Some(Events::DiscussMessage)
    } else if reads(&text, "GroupUploadEvent") {
        Some(Events::GroupUpload)
    } else if reads(&text, "GroupAdminEvent") {
        Some(Events::GroupAdmin)
    } else if reads(&text, "GroupMemberDecreaseEvent") {
        Some(Events::GroupMemberDecrease)
    } else if reads(&text, "GroupMemberIncreaseEvent") {
        Some(Events::GroupMemberIncrease)
    } else if reads(&text, "GroupBanEvent") {
        Some(Events::GroupBan)
    } else if reads(&text, "FriendAddEvent") {
        Some(Events::FriendAdd)
    } else if reads(&text, "AddFriendRequestEvent") {
        Some(Events::AddFriendRequest)
    } else if reads(&text, "AddGroupRequestEvent") {
        Some(Events::AddGroupRequest)
    } else {
        None
    };
    proof {
        match r {
            Some(kind) => {
                lemma_kind_of_event_name(kind);
            },
            None => {
                assert forall|kind: Events| event_name(kind) != name@ by {}
            },
        }
    }
    r
}

/// The name that the entry points of `kind` share.
pub fn base_name(kind: Events) -> (name: &'static str)
    ensures
        name@ == export_base(kind),
{
    match kind {
        Events::Start => "on_start",
        Events::Exit => "on_exit",
        Events::Disable => "on_disable",
        Events::PrivateMessage => "on_private_msg",
        Events::GroupMessage => "on_group_msg",
        Events::DiscussMessage => "on_discuss_msg",
        Events::GroupUpload => "on_group_upload",
        Events::GroupAdmin => "on_group_admin",
        Events::GroupMemberDecrease => "on_group_member_decrease",
        Events::GroupMemberIncrease => "on_group_member_increase",
        Events::GroupBan => "on_group_ban",
        Events::FriendAdd => "on_friend_add",
        Events::AddFriendRequest => "on_add_friend_request",
        Events::AddGroupRequest => "on_add_group_request",
    }
}

/// The number called `name` of type `ty`.
fn number(name: &str, ty: NativeType) -> (arg: Argument)
    ensures
        arg@ == (ArgumentRecord { name: name@, ty, content: Content::Number }),
{
    Argument { name: String::from_str(name), ty, content: Content::Number }
}

/// The pointer called `name` to bytes that hold `content`.
fn bytes(name: &str, content: Content) -> (arg: Argument)
    ensures
        arg@ == pointer(name@, content),
{
    Argument { name: String::from_str(name), ty: NativeType::Bytes, content }
}

/// The arguments that the host passes for `kind`, in order.
pub fn arguments(kind: Events) -> (args: Vec<Argument>)
    ensures
        arguments_of(args@) == signature(kind),
{
    let mut args: Vec<Argument> = Vec::new();
    match kind {
        Events::Start | Events::Exit | Events::Disable => {},
        Events::PrivateMessage => {
            args.push(number("sub_type", NativeType::Int32));
            args.push(number("msg_id", NativeType::Int32));
            args.push(number("user_id", NativeType::Int64));
            args.push(bytes("msg", Content::Text));
            args.push(number("font", NativeType::Int32));
        },
        Events::GroupMessage => {
            args.push(number("sub_type", NativeType::Int32));
            args.push(number("msg_id", NativeType::Int32));
            args.push(number("group_id", NativeType::Int64));
            args.push(number("user_id", NativeType::Int64));
            args.push(bytes("anonymous_flag", Content::Envelope));
            args.push(bytes("msg", Content::Text));
            args.push(number("font", NativeType::Int32));
        },
        Events::DiscussMessage => {
            args.push(number("sub_type", NativeType::Int32));
            args.push(number("msg_id", NativeType::Int32));
            args.push(number("discuss_id", NativeType::Int64));
            args.push(number("user_id", NativeType::Int64));
            args.push(bytes("msg", Content::Text));
            args.push(number("font", NativeType::Int32));
        },
        Events::GroupUpload => {
            args.push(number("sub_type", NativeType::Int32));
            args.push(number("send_time", NativeType::Int32));
            args.push(number("group_id", NativeType::Int64));
            args.push(number("user_id", NativeType::Int64));
            args.push(bytes("file", Content::Envelope));
        },
        Events::GroupAdmin => {
            args.push(number("sub_type", NativeType::Int32));
            args.push(number("send_time", NativeType::Int32));
            args.push(number("group_id", NativeType::Int64));
            args.push(number("user_id", NativeType::Int64));
        },
        Events::GroupMemberDecrease | Events::GroupMemberIncrease => {
            args.push(number("sub_type", NativeType::Int32));
            args.push(number("send_time", NativeType::Int32));
            args.push(number("group_id", NativeType::Int64));
            args.push(number("operate_user_id", NativeType::Int64));
            args.push(number("being_operate_user_id", NativeType::Int64));
        },
        Events::GroupBan => {
            args.push(number("sub_type", NativeType::Int32));
            args.push(number("send_time", NativeType::Int32));
            args.push(number("group_id", NativeType::Int64));
            args.push(number("operate_user_id", NativeType::Int64));
            args.push(number("being_operate_user_id", NativeType::Int64));
            args.push(number("time", NativeType::Int64));
        },
        Events::FriendAdd => {
            args.push(number("sub_type", NativeType::Int32));
            args.push(number("send_time", NativeType::Int32));
            args.push(number("user_id", NativeType::Int64));
        },
        Events::AddFriendRequest => {
            args.push(number("sub_type", NativeType::Int32));
            args.push(number("send_time", NativeType::Int32));
            args.push(number("user_id", NativeType::Int64));
            args.push(bytes("msg", Content::Text));
            args.push(bytes("flag", Content::Token));
        },
        Events::AddGroupRequest => {
            args.push(number("sub_type", NativeType::Int32));
            args.push(number("send_time", NativeType::Int32));
            args.push(number("group_id", NativeType::Int64));
            args.push(number("user_id", NativeType::Int64));
            args.push(bytes("msg", Content::Text));
            args.push(bytes("flag", Content::Token));
        },
    }
    assert(arguments_of(args@) =~= signature(kind));
    args
}

/// Whether building the event of `kind` from its arguments can fail.
pub fn needs_decoding(kind: Events) -> (r: bool)
    ensures
        r == decodes(kind),
{
    match kind {
        Events::PrivateMessage | Events::AddFriendRequest => {
            assert(signature(kind)[3].content == Content::Text);
            true
        },
        Events::DiscussMessage | Events::AddGroupRequest => {
            assert(signature(kind)[4].content == Content::Text);
            true
        },
        Events::GroupMessage | Events::GroupUpload => {
            assert(signature(kind)[4].content == Content::Envelope);
            true
        },
        _ => false,
    }
}

/// Looks up the row of the event type called `event`.
pub fn get_event_func(event: &str) -> (r: Option<EventFunc>)
    ensures
        match kind_named(event@) {
            Some(kind) => r matches Some(func) && func@ == row(kind),
            None => r is None,
        },
{
    match event_kind(event) {
        Some(kind) => Some(
            EventFunc {
                kind,
                name: String::from_str(base_name(kind)),
                args: arguments(kind),
                result: NativeType::Int32,
            },
        ),
        None => None,
    }
}

} // verus!
