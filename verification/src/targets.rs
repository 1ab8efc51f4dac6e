//! Records that arrive inside base64 envelopes: object arrays, file
//! descriptors and anonymous senders.

use crate::cursor::{
    block_read, i16_read, i32_read, i64_read, lemma_i16_read_encoded, lemma_i32_read_encoded,
    lemma_i64_read_encoded, lemma_text_read_encoded, string_from_utf8, text_encoding, text_of,
    text_read, ByteCursor,
};
use crate::error::{DecodeCause, DecodeFailure, DecodeStage};
use crate::wire::{i16_to_be, i32_to_be, i64_to_be};
use vstd::prelude::*;
use vstd::utf8::encode_utf8;

verus! {

/// `base64::DecodeError`, which `base64::decode` returns for input that is
/// not base64. Nothing is read from it.
#[verifier::external_type_specification]
#[verifier::external_body]
pub struct ExBase64DecodeError(base64::DecodeError);

/// The bytes that `base64::decode` makes of `input` (standard alphabet), or
/// `None` where it reports an error.
pub uninterp spec fn base64_payload(input: Seq<u8>) -> Option<Seq<u8>>;

/// Calls `base64::decode`. What it returns depends on the input bytes alone;
/// the contract gives that result its name.
#[verifier::external_body]
pub(crate) fn base64_decode(input: &[u8]) -> (r: Result<Vec<u8>, base64::DecodeError>)
    ensures
        base64_payload(input@) == match r {
            Ok(bytes) => Some(bytes@),
            Err(_) => None,
        },
{
    base64::decode(input)
}

/// Unwraps a base64 envelope and puts a cursor at the start of its payload.
/// Input that is not base64 is reported as a malformed envelope.
pub fn decode_base64_envelope(raw_bytes: &[u8]) -> (r: Result<ByteCursor, DecodeFailure>)
    ensures
        match base64_payload(raw_bytes@) {
            Some(payload) => r matches Ok(cursor) && cursor.bytes() == payload && cursor.offset()
                == 0 && cursor.remaining() == payload,
            None => r matches Err(e) && e == DecodeFailure::at(
                DecodeStage::Envelope,
                DecodeCause::MalformedEnvelope,
            ),
        },
{
    match base64_decode(raw_bytes) {
        Ok(payload) => Ok(ByteCursor::new(payload)),
        Err(_) => Err(DecodeFailure::new(DecodeStage::Envelope, DecodeCause::MalformedEnvelope)),
    }
}

/// A source of bytes from which a length-prefixed text can be read.
pub trait ReadString {
    /// The bytes that have not been consumed yet.
    spec fn pending(&self) -> Seq<u8>;

    /// Reads a signed 16-bit length and then that many bytes of UTF-8. A
    /// length of zero or less gives the empty text and consumes nothing more.
    fn read_string(&mut self) -> (r: Result<String, DecodeCause>)
        ensures
            (text_of(r), final(self).pending()) == text_read(old(self).pending()),
    ;
}

impl ReadString for ByteCursor {
    open spec fn pending(&self) -> Seq<u8> {
        self.remaining()
    }

    fn read_string(&mut self) -> (r: Result<String, DecodeCause>)
        ensures
            final(self).bytes() == old(self).bytes(),
            final(self).well_formed(),
    {
        let len = match self.read_i16() {
            Ok(len) => len,
            Err(cause) => {
                return Err(cause);
            },
        };
        if len > 0 {
            let body = match self.read_block(len as usize) {
                Ok(body) => body,
                Err(cause) => {
                    return Err(cause);
                },
            };
            match string_from_utf8(body) {
                Ok(text) => {
                    proof {
                        vstd::utf8::encode_utf8_decode_utf8(text@);
                    }
                    Ok(text)
                },
                Err(_) => Err(DecodeCause::InvalidEncoding),
            }
        } else {
            Ok(String::new())
        }
    }
}

/// The byte sequences that a vector of blocks holds.
pub open spec fn blocks_of(blocks: Seq<Vec<u8>>) -> Seq<Seq<u8>> {
    Seq::new(blocks.len(), |i: int| blocks[i]@)
}

/// The blocks of an object array that was read, or the error that came instead.
pub open spec fn objects_of(r: Result<Vec<Vec<u8>>, DecodeFailure>) -> Result<
    Seq<Seq<u8>>,
    DecodeFailure,
> {
    match r {
        Ok(blocks) => Ok(blocks_of(blocks@)),
        Err(e) => Err(e),
    }
}

/// Reading `count` entries from `input`, each a signed 16-bit length followed
/// by that many bytes. A negative length asks for more bytes than any input
/// holds, and fails as truncated input does.
pub open spec fn entries_read(input: Seq<u8>, count: nat) -> Result<Seq<Seq<u8>>, DecodeFailure>
    decreases count,
{
    if count == 0 {
        Ok(Seq::empty())
    } else {
        match i16_read(input) {
            (Err(cause), _) => Err(DecodeFailure::at(DecodeStage::EntryLength, cause)),
            (Ok(len), rest) => if len < 0 {
                Err(DecodeFailure::at(DecodeStage::EntryBody, DecodeCause::TruncatedInput))
            } else {
                match block_read(rest, len as nat) {
                    (Err(cause), _) => Err(DecodeFailure::at(DecodeStage::EntryBody, cause)),
                    (Ok(body), rest) => match entries_read(rest, (count - 1) as nat) {
                        Ok(tail) => Ok(seq![body] + tail),
                        Err(e) => Err(e),
                    },
                }
            },
        }
    }
}

/// The object array that `payload` holds: a signed 32-bit count, then that
/// many entries, in the order in which they stand. A count of zero or less
/// gives no entries. Bytes after the last entry are not looked at.
pub open spec fn object_array(payload: Seq<u8>) -> Result<Seq<Seq<u8>>, DecodeFailure> {
    match i32_read(payload) {
        (Err(cause), _) => Err(DecodeFailure::at(DecodeStage::Count, cause)),
        (Ok(count), rest) => entries_read(
            rest,
            if count > 0 {
                count as nat
            } else {
                0
            },
        ),
    }
}

/// The bytes that stand for the entries `blocks` on the wire.
pub open spec fn entries_encoding(blocks: Seq<Seq<u8>>) -> Seq<u8>
    decreases blocks.len(),
{
    if blocks.len() == 0 {
        Seq::empty()
    } else {
        i16_to_be(blocks[0].len() as int) + blocks[0] + entries_encoding(blocks.drop_first())
    }
}

/// The bytes that stand for the object array `blocks` on the wire.
pub open spec fn object_array_encoding(blocks: Seq<Seq<u8>>) -> Seq<u8> {
    i32_to_be(blocks.len() as int) + entries_encoding(blocks)
}

/// Entries that were encoded are read back, each as it was and in the same
/// order, as long as each is short enough for its length to be written down.
pub proof fn lemma_entries_read_encoded(blocks: Seq<Seq<u8>>, tail: Seq<u8>)
    requires
        forall|i: int| 0 <= i < blocks.len() ==> blocks[i].len() <= i16::MAX,
    ensures
        entries_read(entries_encoding(blocks) + tail, blocks.len()) == Ok::<
            Seq<Seq<u8>>,
            DecodeFailure,
        >(blocks),
    decreases blocks.len(),
{
    if blocks.len() == 0 {
        assert(blocks =~= Seq::<Seq<u8>>::empty());
    } else {
        let first = blocks[0];
        let others = blocks.drop_first();
        let after = entries_encoding(others) + tail;
        let input = entries_encoding(blocks) + tail;
        assert(input =~= i16_to_be(first.len() as int) + (first + after));
        lemma_i16_read_encoded(first.len() as i16, first + after);
        assert((first + after).take(first.len() as int) =~= first);
        assert((first + after).skip(first.len() as int) =~= after);
        lemma_entries_read_encoded(others, tail);
        assert(seq![first] + others =~= blocks);
    }
}

/// An object array that was encoded is read back as it was, whatever follows it.
pub proof fn lemma_object_array_encoded(blocks: Seq<Seq<u8>>, tail: Seq<u8>)
    requires
        blocks.len() <= i32::MAX,
        forall|i: int| 0 <= i < blocks.len() ==> blocks[i].len() <= i16::MAX,
    ensures
        object_array(object_array_encoding(blocks) + tail) == Ok::<Seq<Seq<u8>>, DecodeFailure>(
            blocks,
        ),
{
    let input = object_array_encoding(blocks) + tail;
    assert(input =~= i32_to_be(blocks.len() as int) + (entries_encoding(blocks) + tail));
    lemma_i32_read_encoded(blocks.len() as i32, entries_encoding(blocks) + tail);
    lemma_entries_read_encoded(blocks, tail);
}

/// Reads an object array from what is left under `cursor`.
#[verifier::loop_isolation(false)]
pub fn read_objects(cursor: ByteCursor) -> (r: Result<Vec<Vec<u8>>, DecodeFailure>)
    ensures
        objects_of(r) == object_array(cursor.remaining()),
{
    let ghost start = cursor.remaining();
    let mut cursor = cursor;
    let count = match cursor.read_i32() {
        Ok(count) => count,
        Err(cause) => {
            return Err(DecodeFailure::new(DecodeStage::Count, cause));
        },
    };
    let mut blocks: Vec<Vec<u8>> = Vec::new();
    let mut done: i32 = 0;
    proof {
        match object_array(start) {
            Ok(all) => {
                assert(blocks_of(blocks@) + all =~= all);
            },
            Err(_) => {},
        }
    }
    while done < count
        invariant
            0 <= done,
            count > 0 ==> done <= count,
            object_array(start) == match entries_read(
                cursor.remaining(),
                if count > 0 {
                    (count - done) as nat
                } else {
                    0
                },
            ) {
                Ok(tail) => Ok(blocks_of(blocks@) + tail),
                Err(e) => Err(e),
            },
        decreases count - done,
    {
        let ghost had = blocks_of(blocks@);
        let len = match cursor.read_i16() {
            Ok(len) => len,
            Err(cause) => {
                return Err(DecodeFailure::new(DecodeStage::EntryLength, cause));
            },
        };
        if len < 0 {
            return Err(DecodeFailure::new(DecodeStage::EntryBody, DecodeCause::TruncatedInput));
        }
        let body = match cursor.read_block(len as usize) {
            Ok(body) => body,
            Err(cause) => {
                return Err(DecodeFailure::new(DecodeStage::EntryBody, cause));
            },
        };
        let ghost item = body@;
        blocks.push(body);
        done = done + 1;
        proof {
            assert(blocks_of(blocks@) =~= had + seq![item]);
            match entries_read(cursor.remaining(), (count - done) as nat) {
                Ok(tail) => {
                    assert((had + seq![item]) + tail =~= had + (seq![item] + tail));
                },
                Err(_) => {},
            }
        }
    }
    Ok(blocks)
}

/// Decodes an object array from its base64 envelope: the blocks, in wire order.
pub fn read_multi_object(raw_bytes: &[u8]) -> (r: Result<Vec<Vec<u8>>, DecodeFailure>)
    ensures
        objects_of(r) == match base64_payload(raw_bytes@) {
            Some(payload) => object_array(payload),
            None => Err(
                DecodeFailure::at(DecodeStage::Envelope, DecodeCause::MalformedEnvelope),
            ),
        },
{
    match decode_base64_envelope(raw_bytes) {
        Ok(cursor) => read_objects(cursor),
        Err(e) => Err(e),
    }
}

/// What a file descriptor holds.
pub struct FileRecord {
    pub id: Seq<char>,
    pub name: Seq<char>,
    pub size: i64,
    pub busid: i64,
}

/// The descriptor of a file uploaded to a group.
#[derive(Debug, Clone, PartialEq, Eq)]
pub struct File {
    pub id: String,
    pub name: String,
    pub size: i64,
    pub busid: i64,
}

impl View for File {
    type V = FileRecord;

    open spec fn view(&self) -> FileRecord {
        FileRecord { id: self.id@, name: self.name@, size: self.size, busid: self.busid }
    }
}

/// The record of a file that was decoded, or the error that came instead.
pub open spec fn file_of(r: Result<File, DecodeFailure>) -> Result<FileRecord, DecodeFailure> {
    match r {
        Ok(file) => Ok(file@),
        Err(e) => Err(e),
    }
}

/// The file descriptor that `payload` holds: identifier and name as texts,
/// then size and bus identifier as signed 64-bit numbers, in that order.
/// Bytes after the last field are not looked at.
pub open spec fn file_record(payload: Seq<u8>) -> Result<FileRecord, DecodeFailure> {
    match text_read(payload) {
        (Err(cause), _) => Err(DecodeFailure::at(DecodeStage::FileId, cause)),
        (Ok(id), rest) => match text_read(rest) {
            (Err(cause), _) => Err(DecodeFailure::at(DecodeStage::FileName, cause)),
            (Ok(name), rest) => match i64_read(rest) {
                (Err(cause), _) => Err(DecodeFailure::at(DecodeStage::FileSize, cause)),
                (Ok(size), rest) => match i64_read(rest) {
                    (Err(cause), _) => Err(DecodeFailure::at(DecodeStage::FileBusId, cause)),
                    (Ok(busid), _) => Ok(FileRecord { id, name, size, busid }),
                },
            },
        },
    }
}

/// The bytes that stand for a file descriptor on the wire.
pub open spec fn file_encoding(file: FileRecord) -> Seq<u8> {
    text_encoding(file.id) + text_encoding(file.name) + i64_to_be(file.size as int) + i64_to_be(
        file.busid as int,
    )
}

/// A file descriptor that was encoded is read back as it was, whatever
/// follows it, as long as identifier and name are short enough for their
/// lengths to be written down.
pub proof fn lemma_file_record_encoded(file: FileRecord, tail: Seq<u8>)
    requires
        encode_utf8(file.id).len() <= i16::MAX,
        encode_utf8(file.name).len() <= i16::MAX,
    ensures
        file_record(file_encoding(file) + tail) == Ok::<FileRecord, DecodeFailure>(file),
{
    let after_size = i64_to_be(file.busid as int) + tail;
    let after_name = i64_to_be(file.size as int) + after_size;
    let after_id = text_encoding(file.name) + after_name;
    assert(file_encoding(file) + tail =~= text_encoding(file.id) + after_id);
    lemma_text_read_encoded(file.id, after_id);
    lemma_text_read_encoded(file.name, after_name);
    lemma_i64_read_encoded(file.size, after_size);
    lemma_i64_read_encoded(file.busid, tail);
}

impl File {
    /// Reads a file descriptor from what is left under `cursor`.
    pub fn from_cursor(cursor: ByteCursor) -> (r: Result<File, DecodeFailure>)
        ensures
            file_of(r) == file_record(cursor.remaining()),
    {
        let mut cursor = cursor;
        let id = match cursor.read_string() {
            Ok(id) => id,
            Err(cause) => {
                return Err(DecodeFailure::new(DecodeStage::FileId, cause));
            },
        };
        let name = match cursor.read_string() {
            Ok(name) => name,
            Err(cause) => {
                return Err(DecodeFailure::new(DecodeStage::FileName, cause));
            },
        };
        let size = match cursor.read_i64() {
            Ok(size) => size,
            Err(cause) => {
                return Err(DecodeFailure::new(DecodeStage::FileSize, cause));
            },
        };
        let busid = match cursor.read_i64() {
            Ok(busid) => busid,
            Err(cause) => {
                return Err(DecodeFailure::new(DecodeStage::FileBusId, cause));
            },
        };
        Ok(File { id, name, size, busid })
    }

    /// Decodes a file descriptor from its base64 envelope.
    pub fn decode(b: &[u8]) -> (r: Result<File, DecodeFailure>)
        ensures
            file_of(r) == match base64_payload(b@) {
                Some(payload) => file_record(payload),
                None => Err(
                    DecodeFailure::at(DecodeStage::Envelope, DecodeCause::MalformedEnvelope),
                ),
            },
    {
        match decode_base64_envelope(b) {
            Ok(cursor) => File::from_cursor(cursor),
            Err(e) => Err(e),
        }
    }
}

/// A token that the host gave and wants back unchanged. It is bytes, never
/// text: nothing decodes it, checks it or writes it anew.
#[derive(Debug, PartialEq, Eq)]
pub struct Flag {
    bytes: Vec<u8>,
}

impl View for Flag {
    type V = Seq<u8>;

    closed spec fn view(&self) -> Seq<u8> {
        self.bytes@
    }
}

impl Flag {
    /// The token that holds exactly `bytes`.
    pub fn from_bytes(bytes: &[u8]) -> (flag: Flag)
        ensures
            flag@ == bytes@,
    {
        Flag { bytes: vstd::slice::slice_to_vec(bytes) }
    }

    /// The bytes of the token, as they came.
    pub fn as_bytes(&self) -> (bytes: &[u8])
        ensures
            bytes@ == self@,
    {
        self.bytes.as_slice()
    }

}

impl Clone for Flag {
    /// A second token with the same bytes.
    fn clone(&self) -> (flag: Flag)
        ensures
            flag@ == self@,
    {
        Flag::from_bytes(self.bytes.as_slice())
    }
}

impl Default for Flag {
    /// The token without bytes.
    fn default() -> (flag: Flag)
        ensures
            flag@ == Seq::<u8>::empty(),
    {
        Flag { bytes: Vec::new() }
    }
}

/// What an anonymous sender holds.
pub struct SenderRecord {
    pub group_id: i64,
    pub user_id: i64,
    pub name: Seq<char>,
    pub flag: Seq<u8>,
}

/// A member who wrote to a group under a disguise.
#[derive(Debug, Clone, PartialEq, Eq)]
pub struct Anonymous {
    pub group_id: i64,
    pub user_id: i64,
    pub name: String,
    pub flag: Flag,
}

impl View for Anonymous {
    type V = SenderRecord;

    open spec fn view(&self) -> SenderRecord {
        SenderRecord {
            group_id: self.group_id,
            user_id: self.user_id,
            name: self.name@,
            flag: self.flag@,
        }
    }
}

impl Default for Anonymous {
    /// The sender with zero identifiers, an empty name and an empty token.
    fn default() -> (sender: Anonymous)
        ensures
            sender@ == (SenderRecord {
                group_id: 0,
                user_id: 0,
                name: Seq::empty(),
                flag: Seq::empty(),
            }),
    {
        Anonymous { group_id: 0, user_id: 0, name: String::new(), flag: Flag::default() }
    }
}

/// The record of a sender that was decoded, or the error that came instead.
pub open spec fn sender_of(r: Result<Anonymous, DecodeFailure>) -> Result<
    SenderRecord,
    DecodeFailure,
> {
    match r {
        Ok(sender) => Ok(sender@),
        Err(e) => Err(e),
    }
}

/// The anonymous sender that `payload` holds: the user identifier as a signed
/// 64-bit number, then the name as a text. The group comes from the caller,
/// and the token is the envelope `raw` as it arrived, not anything decoded.
pub open spec fn sender_record(payload: Seq<u8>, group_id: i64, raw: Seq<u8>) -> Result<
    SenderRecord,
    DecodeFailure,
> {
    match i64_read(payload) {
        (Err(cause), _) => Err(DecodeFailure::at(DecodeStage::SenderUserId, cause)),
        (Ok(user_id), rest) => match text_read(rest) {
            (Err(cause), _) => Err(DecodeFailure::at(DecodeStage::SenderName, cause)),
            (Ok(name), _) => Ok(SenderRecord { group_id, user_id, name, flag: raw }),
        },
    }
}

/// The bytes that stand for an anonymous sender on the wire, before they go
/// into the envelope.
pub open spec fn sender_encoding(user_id: i64, name: Seq<char>) -> Seq<u8> {
    i64_to_be(user_id as int) + text_encoding(name)
}

/// An anonymous sender that was encoded is read back as it was, whatever
/// follows it, with the group and the token that the caller gives.
pub proof fn lemma_sender_record_encoded(
    user_id: i64,
    name: Seq<char>,
    tail: Seq<u8>,
    group_id: i64,
    raw: Seq<u8>,
)
    requires
        encode_utf8(name).len() <= i16::MAX,
    ensures
        sender_record(sender_encoding(user_id, name) + tail, group_id, raw) == Ok::<
            SenderRecord,
            DecodeFailure,
        >(SenderRecord { group_id, user_id, name, flag: raw }),
{
    let after = text_encoding(name) + tail;
    assert(sender_encoding(user_id, name) + tail =~= i64_to_be(user_id as int) + after);
    lemma_i64_read_encoded(user_id, after);
    lemma_text_read_encoded(name, tail);
}

/// A request to silence an anonymous sender, for the host to carry out.
#[derive(Debug, Clone, PartialEq, Eq)]
pub struct BanRequest {
    pub group_id: i64,
    pub flag: Flag,
    pub duration: i64,
}

impl Anonymous {
    /// The request that silences this sender for `time` seconds: the group
    /// and the token go to the host as they are.
    pub fn ban(&self, time: i64) -> (request: BanRequest)
        ensures
            request.group_id == self.group_id,
            request.flag@ == self.flag@,
            request.duration == time,
    {
        BanRequest { group_id: self.group_id, flag: self.flag.clone(), duration: time }
    }

    /// Reads an anonymous sender from what is left under `cursor`, for the
    /// group `group_id` and with the envelope `raw` as its token.
    pub fn from_cursor(cursor: ByteCursor, group_id: i64, raw: &[u8]) -> (r: Result<
        Anonymous,
        DecodeFailure,
    >)
        ensures
            sender_of(r) == sender_record(cursor.remaining(), group_id, raw@),
    {
        let mut cursor = cursor;
        let user_id = match cursor.read_i64() {
            Ok(user_id) => user_id,
            Err(cause) => {
                return Err(DecodeFailure::new(DecodeStage::SenderUserId, cause));
            },
        };
        let name = match cursor.read_string() {
            Ok(name) => name,
            Err(cause) => {
                return Err(DecodeFailure::new(DecodeStage::SenderName, cause));
            },
        };
        Ok(Anonymous { group_id, user_id, name, flag: Flag::from_bytes(raw) })
    }

    /// Decodes an anonymous sender of the group `group_id` from its base64
    /// envelope. The token of the sender is the envelope itself, byte for
    /// byte, whatever it holds.
    pub fn decode(b: &[u8], group_id: i64) -> (r: Result<Anonymous, DecodeFailure>)
        ensures
            sender_of(r) == match base64_payload(b@) {
                Some(payload) => sender_record(payload, group_id, b@),
                None => Err(
                    DecodeFailure::at(DecodeStage::Envelope, DecodeCause::MalformedEnvelope),
                ),
            },
            r matches Ok(sender) ==> sender.flag@ == b@ && sender.group_id == group_id,
    {
        match decode_base64_envelope(b) {
            Ok(cursor) => Anonymous::from_cursor(cursor, group_id, b),
            Err(e) => Err(e),
        }
    }
}

} // verus!
