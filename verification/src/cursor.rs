//! A cursor over a byte buffer, and the reads of single values from it.
//!
//! Every read is described by a function on the bytes that are left: it gives
//! the value or the cause of failure, together with the bytes left after the
//! read. A read that runs out of input leaves nothing; nothing is ever put back.

use crate::error::DecodeCause;
use crate::wire::{
    be_read_i16, be_read_i32, be_read_i64, i16_from_be, i16_to_be, i32_from_be, i32_to_be,
    i64_from_be, i64_to_be, lemma_i16_encode_decode, lemma_i32_encode_decode,
    lemma_i64_encode_decode,
};
use std::string::FromUtf8Error;
use vstd::prelude::*;
use vstd::slice::slice_subrange;
use vstd::utf8::{encode_utf8, valid_utf8};

verus! {

/// Reading a signed 16-bit number from `input`.
pub open spec fn i16_read(input: Seq<u8>) -> (Result<i16, DecodeCause>, Seq<u8>) {
    if input.len() < 2 {
        (Err(DecodeCause::TruncatedInput), Seq::empty())
    } else {
        (Ok(i16_from_be(input) as i16), input.skip(2))
    }
}

/// Reading a signed 32-bit number from `input`.
pub open spec fn i32_read(input: Seq<u8>) -> (Result<i32, DecodeCause>, Seq<u8>) {
    if input.len() < 4 {
        (Err(DecodeCause::TruncatedInput), Seq::empty())
    } else {
        (Ok(i32_from_be(input) as i32), input.skip(4))
    }
}

/// Reading a signed 64-bit number from `input`.
pub open spec fn i64_read(input: Seq<u8>) -> (Result<i64, DecodeCause>, Seq<u8>) {
    if input.len() < 8 {
        (Err(DecodeCause::TruncatedInput), Seq::empty())
    } else {
        (Ok(i64_from_be(input) as i64), input.skip(8))
    }
}

/// Reading a block of `len` bytes from `input`.
pub open spec fn block_read(input: Seq<u8>, len: nat) -> (Result<Seq<u8>, DecodeCause>, Seq<u8>) {
    if input.len() < len {
        (Err(DecodeCause::TruncatedInput), Seq::empty())
    } else {
        (Ok(input.take(len as int)), input.skip(len as int))
    }
}

/// Reading a text from `input`: a signed 16-bit length, then that many bytes
/// of UTF-8. A length of zero or less stands for the empty text, and no byte
/// after the length is touched. Bytes that are not UTF-8 are consumed all the
/// same.
pub open spec fn text_read(input: Seq<u8>) -> (Result<Seq<char>, DecodeCause>, Seq<u8>) {
    match i16_read(input) {
        (Err(cause), rest) => (Err(cause), rest),
        (Ok(len), rest) => if len <= 0 {
            (Ok(Seq::empty()), rest)
        } else {
            match block_read(rest, len as nat) {
                (Err(cause), rest) => (Err(cause), rest),
                (Ok(body), rest) => if valid_utf8(body) {
                    (Ok(vstd::utf8::decode_utf8(body)), rest)
                } else {
                    (Err(DecodeCause::InvalidEncoding), rest)
                },
            }
        },
    }
}

/// The bytes that stand for `text` on the wire: the length of its UTF-8 form
/// as a signed 16-bit number, then that form.
pub open spec fn text_encoding(text: Seq<char>) -> Seq<u8> {
    i16_to_be(encode_utf8(text).len() as int) + encode_utf8(text)
}

/// A 16-bit number that was encoded is read back, and what follows it is left.
pub proof fn lemma_i16_read_encoded(x: i16, tail: Seq<u8>)
    ensures
        i16_read(i16_to_be(x as int) + tail) == (Ok::<i16, DecodeCause>(x), tail),
{
    let input = i16_to_be(x as int) + tail;
    lemma_i16_encode_decode(x as int);
    assert(i16_from_be(input) == i16_from_be(i16_to_be(x as int)));
    assert(input.skip(2) =~= tail);
}

/// A 32-bit number that was encoded is read back, and what follows it is left.
pub proof fn lemma_i32_read_encoded(x: i32, tail: Seq<u8>)
    ensures
        i32_read(i32_to_be(x as int) + tail) == (Ok::<i32, DecodeCause>(x), tail),
{
    let input = i32_to_be(x as int) + tail;
    lemma_i32_encode_decode(x as int);
    assert(i32_from_be(input) == i32_from_be(i32_to_be(x as int)));
    assert(input.skip(4) =~= tail);
}

/// A 64-bit number that was encoded is read back, and what follows it is left.
pub proof fn lemma_i64_read_encoded(x: i64, tail: Seq<u8>)
    ensures
        i64_read(i64_to_be(x as int) + tail) == (Ok::<i64, DecodeCause>(x), tail),
{
    let input = i64_to_be(x as int) + tail;
    lemma_i64_encode_decode(x as int);
    assert(input.skip(4) =~= i64_to_be(x as int).skip(4) + tail);
    assert(i64_from_be(input) == i64_from_be(i64_to_be(x as int)));
    assert(input.skip(8) =~= tail);
}

/// A text that was encoded is read back, and what follows it is left. This
/// holds of every text whose UTF-8 form is short enough for its length to be
/// written down.
pub proof fn lemma_text_read_encoded(text: Seq<char>, tail: Seq<u8>)
    requires
        encode_utf8(text).len() <= i16::MAX,
    ensures
        text_read(text_encoding(text) + tail) == (Ok::<Seq<char>, DecodeCause>(text), tail),
{
    let body = encode_utf8(text);
    let len = body.len() as i16;
    let input = text_encoding(text) + tail;
    assert(input =~= i16_to_be(len as int) + (body + tail));
    lemma_i16_read_encoded(len, body + tail);
    vstd::utf8::encode_utf8_valid_utf8(text);
    vstd::utf8::encode_utf8_decode_utf8(text);
    if len > 0 {
        assert((body + tail).take(len as int) =~= body);
        assert((body + tail).skip(len as int) =~= tail);
    } else {
        assert(body =~= Seq::<u8>::empty());
        assert(body + tail =~= tail);
        assert(text =~= Seq::<char>::empty());
    }
}

/// A length of zero or less stands for the empty text, and the bytes after
/// the length stay where they are.
pub proof fn lemma_text_read_without_body(input: Seq<u8>)
    requires
        input.len() >= 2,
        i16_from_be(input) <= 0,
    ensures
        text_read(input) == (Ok::<Seq<char>, DecodeCause>(Seq::empty()), input.skip(2)),
{
}

/// A text whose length asks for more bytes than follow it is truncated input.
pub proof fn lemma_text_read_truncated(input: Seq<u8>)
    requires
        input.len() < 2 || i16_from_be(input) > input.len() - 2,
    ensures
        text_read(input).0 == Err::<Seq<char>, DecodeCause>(DecodeCause::TruncatedInput),
{
}

/// The characters of a text that was read, or the cause that came instead.
pub open spec fn text_of(r: Result<String, DecodeCause>) -> Result<Seq<char>, DecodeCause> {
    match r {
        Ok(s) => Ok(s@),
        Err(cause) => Err(cause),
    }
}

/// The bytes of a block that was read, or the cause that came instead.
pub open spec fn block_of(r: Result<Vec<u8>, DecodeCause>) -> Result<Seq<u8>, DecodeCause> {
    match r {
        Ok(v) => Ok(v@),
        Err(cause) => Err(cause),
    }
}

/// `std::string::FromUtf8Error`, which `String::from_utf8` returns for bytes
/// that are not UTF-8. Nothing is read from it.
#[verifier::external_type_specification]
#[verifier::external_body]
pub struct ExFromUtf8Error(FromUtf8Error);

/// Calls `String::from_utf8`, which checks that `bytes` are valid UTF-8 and,
/// if they are, makes them a `String` as they stand; otherwise it returns an
/// error. The contract says so with `vstd`'s description of UTF-8.
#[verifier::external_body]
pub(crate) fn string_from_utf8(bytes: Vec<u8>) -> (r: Result<String, FromUtf8Error>)
    ensures
        r is Ok <==> valid_utf8(bytes@),
        r matches Ok(s) ==> encode_utf8(s@) == bytes@,
{
    String::from_utf8(bytes)
}

/// A position in a byte buffer that only moves forward.
#[derive(Debug)]
pub struct ByteCursor {
    data: Vec<u8>,
    pos: usize,
}

impl ByteCursor {
    /// The whole buffer, read or not.
    pub closed spec fn bytes(&self) -> Seq<u8> {
        self.data@
    }

    /// How many bytes have been consumed.
    pub closed spec fn offset(&self) -> nat {
        self.pos as nat
    }

    /// The position never lies behind the end of the buffer.
    #[verifier::type_invariant]
    pub open spec fn well_formed(&self) -> bool {
        self.offset() <= self.bytes().len()
    }

    /// The bytes that have not been consumed yet.
    pub open spec fn remaining(&self) -> Seq<u8> {
        self.bytes().skip(self.offset() as int)
    }

    /// A cursor at the start of `data`.
    pub fn new(data: Vec<u8>) -> (cursor: ByteCursor)
        ensures
            cursor.bytes() == data@,
            cursor.offset() == 0,
            cursor.remaining() == data@,
    {
        ByteCursor { data, pos: 0 }
    }

    /// How many bytes have been consumed.
    pub fn position(&self) -> (p: usize)
        ensures
            p == self.offset(),
            p <= self.bytes().len(),
    {
        proof {
            use_type_invariant(self);
        }
        self.pos
    }

    /// How many bytes are left.
    pub fn remaining_len(&self) -> (n: usize)
        ensures
            n == self.remaining().len(),
            n == self.bytes().len() - self.offset(),
    {
        proof {
            use_type_invariant(self);
        }
        self.data.len() - self.pos
    }

    /// Reads a signed 16-bit number, most significant byte first. With fewer
    /// than two bytes left it fails and consumes what is left.
    pub fn read_i16(&mut self) -> (r: Result<i16, DecodeCause>)
        ensures
            final(self).bytes() == old(self).bytes(),
            final(self).well_formed(),
            (r, final(self).remaining()) == i16_read(old(self).remaining()),
    {
        proof {
            use_type_invariant(&*self);
        }
        let len = self.data.len();
        if len - self.pos < 2 {
            self.pos = len;
            Err(DecodeCause::TruncatedInput)
        } else {
            let end = self.pos + 2;
            let value = be_read_i16(slice_subrange(self.data.as_slice(), self.pos, end));
            assert(self.data@.skip(end as int) =~= self.data@.skip(self.pos as int).skip(2));
            self.pos = end;
            Ok(value)
        }
    }

    /// Reads a signed 32-bit number, most significant byte first. With fewer
    /// than four bytes left it fails and consumes what is left.
    pub fn read_i32(&mut self) -> (r: Result<i32, DecodeCause>)
        ensures
            final(self).bytes() == old(self).bytes(),
            final(self).well_formed(),
            (r, final(self).remaining()) == i32_read(old(self).remaining()),
    {
        proof {
            use_type_invariant(&*self);
        }
        let len = self.data.len();
        if len - self.pos < 4 {
            self.pos = len;
            Err(DecodeCause::TruncatedInput)
        } else {
            let end = self.pos + 4;
            let value = be_read_i32(slice_subrange(self.data.as_slice(), self.pos, end));
            assert(self.data@.skip(end as int) =~= self.data@.skip(self.pos as int).skip(4));
            self.pos = end;
            Ok(value)
        }
    }

    /// Reads a signed 64-bit number, most significant byte first. With fewer
    /// than eight bytes left it fails and consumes what is left.
    pub fn read_i64(&mut self) -> (r: Result<i64, DecodeCause>)
        ensures
            final(self).bytes() == old(self).bytes(),
            final(self).well_formed(),
            (r, final(self).remaining()) == i64_read(old(self).remaining()),
    {
        proof {
            use_type_invariant(&*self);
        }
        let len = self.data.len();
        if len - self.pos < 8 {
            self.pos = len;
            Err(DecodeCause::TruncatedInput)
        } else {
            let end = self.pos + 8;
            let value = be_read_i64(slice_subrange(self.data.as_slice(), self.pos, end));
            assert(self.data@.skip(end as int) =~= self.data@.skip(self.pos as int).skip(8));
            self.pos = end;
            Ok(value)
        }
    }

    /// Reads the next `len` bytes as they stand. With fewer bytes left it
    /// fails and consumes what is left.
    pub fn read_block(&mut self, len: usize) -> (r: Result<Vec<u8>, DecodeCause>)
        ensures
            final(self).bytes() == old(self).bytes(),
            final(self).well_formed(),
            (block_of(r), final(self).remaining()) == block_read(old(self).remaining(), len as nat),
    {
        proof {
            use_type_invariant(&*self);
        }
        let total = self.data.len();
        if total - self.pos < len {
            self.pos = total;
            Err(DecodeCause::TruncatedInput)
        } else {
            let end = self.pos + len;
            let block = vstd::slice::slice_to_vec(
                slice_subrange(self.data.as_slice(), self.pos, end),
            );
            assert(self.data@.skip(end as int) =~= self.data@.skip(self.pos as int).skip(
                len as int,
            ));
            assert(block@ =~= self.data@.skip(self.pos as int).take(len as int));
            self.pos = end;
            Ok(block)
        }
    }
}

} // verus!
