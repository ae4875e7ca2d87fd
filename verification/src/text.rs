//! Text on its way to the toolkit and back.
//!
//! The toolkit reads text up to the first zero byte and writes text the same way,
//! into a buffer whose capacity it is told. Nothing of a buffer beyond what was
//! written ever reaches the caller, and no text grows on its way back: what the
//! toolkit wrote is taken as UTF-8 where it is UTF-8, and byte by byte where it is
//! not.
use vstd::prelude::*;
use vstd::string::*;
use vstd::utf8::*;
use crate::MAX_LEN_OUT;

verus! {

/// The byte that ends a text in the toolkit's convention.
pub const TERMINATOR: u8 = 0;

/// The bytes that stand for `text` in a call: the text itself, then the terminator.
pub open spec fn terminated(text: Seq<u8>) -> Seq<u8> {
    text.push(TERMINATOR)
}

/// How many bytes of `buffer` count as written when the toolkit was told that it
/// may use `limit` bytes: those before the first terminator, and never more than
/// `limit` nor more than the buffer holds.
pub open spec fn written_len(buffer: Seq<u8>, limit: int) -> int
    decreases buffer.len(),
{
    if limit <= 0 || buffer.len() == 0 || buffer[0] == TERMINATOR {
        0
    } else {
        1 + written_len(buffer.skip(1), limit - 1)
    }
}

/// The text that the toolkit left in `buffer`.
pub open spec fn written(buffer: Seq<u8>, limit: int) -> Seq<u8> {
    buffer.take(written_len(buffer, limit))
}

/// The length that is declared to the toolkit for a buffer when the caller asks
/// for `len` bytes: never negative, and never more than the buffer's capacity.
pub open spec fn declared_len(len: int) -> i32 {
    if len < 0 {
        0
    } else if len > MAX_LEN_OUT {
        MAX_LEN_OUT as i32
    } else {
        len as i32
    }
}

/// Whether an integer flag of the toolkit stands for true: zero is false,
/// anything else is true.
pub open spec fn flag_is_set(flag: i32) -> bool {
    flag != 0
}

/// A buffer as the toolkit gets it to write text into: `MAX_LEN_OUT` terminators.
pub open spec fn blank() -> Seq<u8> {
    Seq::new(MAX_LEN_OUT as nat, |i: int| TERMINATOR)
}

/// The byte that stands in for one that is no text: a question mark.
pub const UNREADABLE: u8 = 0x3f;

/// `bytes` with a question mark for every byte that is not ASCII.
pub open spec fn plain(bytes: Seq<u8>) -> Seq<u8> {
    Seq::new(
        bytes.len(),
        |i: int|
            if bytes[i] <= 0x7f {
                bytes[i]
            } else {
                UNREADABLE
            },
    )
}

/// The bytes of the owned text that `bytes` are taken for: `bytes` themselves
/// where they are valid UTF-8, else their plain form.
pub open spec fn readable(bytes: Seq<u8>) -> Seq<u8> {
    if valid_utf8(bytes) {
        bytes
    } else {
        plain(bytes)
    }
}

/// The owned text that `bytes` are taken for.
pub open spec fn owned(bytes: Seq<u8>) -> Seq<char> {
    decode_utf8(readable(bytes))
}

/// The owned text that the toolkit left in `buffer` when it was told that it may
/// use `limit` bytes.
pub open spec fn read_back(buffer: Seq<u8>, limit: int) -> Seq<char> {
    owned(written(buffer, limit))
}

/// The toolkit is never promised more room than it gets: whatever length a caller
/// asks for, the length that is declared is not negative and not beyond what a
/// blank buffer holds, and it is the length asked for wherever that fits.
pub proof fn lemma_declared_len_fits(len: int)
    ensures
        0 <= declared_len(len) <= blank().len(),
        blank().len() == MAX_LEN_OUT,
        0 <= len <= MAX_LEN_OUT ==> declared_len(len) == len,
{
}

/// `written_len` stops at the first terminator, at the limit or at the end of the
/// buffer, whichever comes first, and nowhere before.
pub proof fn lemma_written_len(buffer: Seq<u8>, limit: int)
    ensures
        0 <= written_len(buffer, limit) <= buffer.len(),
        limit >= 0 ==> written_len(buffer, limit) <= limit,
        limit <= 0 ==> written_len(buffer, limit) == 0,
        forall|i: int| 0 <= i < written_len(buffer, limit) ==> buffer[i] != TERMINATOR,
        limit >= 0 ==> written_len(buffer, limit) == buffer.len() || written_len(buffer, limit)
            == limit || buffer[written_len(buffer, limit)] == TERMINATOR,
    decreases buffer.len(),
{
    if limit <= 0 || buffer.len() == 0 || buffer[0] == TERMINATOR {
    } else {
        let rest = buffer.skip(1);
        lemma_written_len(rest, limit - 1);
        let k = written_len(rest, limit - 1);
        assert forall|i: int| 0 <= i < k + 1 implies buffer[i] != TERMINATOR by {
            if i > 0 {
                assert(rest[i - 1] == buffer[i]);
            }
        }
        if k < rest.len() {
            assert(rest[k] == buffer[k + 1]);
        }
    }
}

/// A text read back from the toolkit fits the declared length and the buffer, and
/// holds no terminator: no padding of the buffer is ever part of it.
pub proof fn lemma_written_is_bounded(buffer: Seq<u8>, limit: int)
    ensures
        written(buffer, limit).len() <= buffer.len(),
        limit >= 0 ==> written(buffer, limit).len() <= limit,
        !written(buffer, limit).contains(TERMINATOR),
{
    lemma_written_len(buffer, limit);
}

/// Text comes back as it went: where `text` holds no terminator, what is read
/// from its terminated form is `text` again, whatever follows the terminator in
/// the buffer, as long as the limit does not cut it short.
pub proof fn lemma_terminated_reads_back(text: Seq<u8>, padding: Seq<u8>, limit: int)
    requires
        !text.contains(TERMINATOR),
        text.len() <= limit,
    ensures
        written(terminated(text) + padding, limit) == text,
    decreases text.len(),
{
    let buffer = terminated(text) + padding;
    if text.len() == 0 {
        assert(buffer[0] == TERMINATOR);
        assert(written(buffer, limit) =~= text);
    } else {
        assert(text.contains(text[0]));
        assert(buffer[0] == text[0]);
        let rest = text.skip(1);
        assert forall|i: int| 0 <= i < rest.len() implies rest[i] != TERMINATOR by {
            assert(text.contains(text[i + 1]));
        }
        let tail = terminated(rest) + padding;
        assert(buffer.skip(1) =~= tail);
        lemma_terminated_reads_back(rest, padding, limit - 1);
        lemma_written_len(tail, limit - 1);
        assert(tail.take(written_len(tail, limit - 1)).len() == written_len(tail, limit - 1));
        assert(written_len(buffer, limit) == 1 + rest.len());
        assert(written(buffer, limit) =~= text);
    }
}

/// The plain form of any bytes is valid UTF-8, has as many bytes as they have,
/// and holds no terminator unless they hold one.
pub proof fn lemma_plain_is_text(bytes: Seq<u8>)
    ensures
        valid_utf8(plain(bytes)),
        plain(bytes).len() == bytes.len(),
        !bytes.contains(TERMINATOR) ==> !plain(bytes).contains(TERMINATOR),
{
    let plain = plain(bytes);
    assert(plain.subrange(0, 0) =~= Seq::<u8>::empty());
    assert(partial_valid_utf8(plain, 0));
    assert forall|i: int| 0 <= i < plain.len() implies #[trigger] is_leading_byte_width_1(
        plain[i],
    ) by {}
    partial_valid_utf8_extend_ascii_block(plain, 0, plain.len() as int);
    assert(plain.subrange(0, plain.len() as int) =~= plain);
    if !bytes.contains(TERMINATOR) {
        assert forall|i: int| 0 <= i < plain.len() implies plain[i] != TERMINATOR by {
            assert(bytes.contains(bytes[i]));
        }
    }
}

/// An owned text is as long as the bytes that it was taken from: its bytes are
/// the readable form of those bytes, one for one.
pub proof fn lemma_owned_keeps_length(bytes: Seq<u8>)
    ensures
        valid_utf8(readable(bytes)),
        encode_utf8(owned(bytes)) == readable(bytes),
        readable(bytes).len() == bytes.len(),
        !bytes.contains(TERMINATOR) ==> !readable(bytes).contains(TERMINATOR),
{
    lemma_plain_is_text(bytes);
    decode_utf8_encode_utf8(readable(bytes));
}

/// No text outgrows its buffer: whatever the buffer holds, the bytes of the text
/// that is read back from it are no more than the buffer holds, no more than the
/// toolkit was told that it may use, and none of them is a terminator, so that no
/// padding of the buffer is among them.
pub proof fn lemma_read_back_is_bounded(buffer: Seq<u8>, limit: int)
    ensures
        encode_utf8(read_back(buffer, limit)).len() <= buffer.len(),
        limit >= 0 ==> encode_utf8(read_back(buffer, limit)).len() <= limit,
        !encode_utf8(read_back(buffer, limit)).contains(TERMINATOR),
{
    lemma_written_is_bounded(buffer, limit);
    lemma_owned_keeps_length(written(buffer, limit));
}

/// An owned text survives the way to the toolkit and back: where the bytes of
/// `text` hold no terminator, what is read back from their terminated form is
/// `text` again, whatever follows the terminator in the buffer, as long as the
/// limit does not cut it short.
pub proof fn lemma_text_round_trip(text: Seq<char>, padding: Seq<u8>, limit: int)
    requires
        !encode_utf8(text).contains(TERMINATOR),
        encode_utf8(text).len() <= limit,
    ensures
        read_back(terminated(encode_utf8(text)) + padding, limit) == text,
{
    lemma_terminated_reads_back(encode_utf8(text), padding, limit);
    encode_utf8_valid_utf8(text);
    encode_utf8_decode_utf8(text);
}

/// Lays `text` out for the toolkit: its bytes, then the terminator. The toolkit
/// reads up to the first terminator, so that a text which holds a zero byte
/// reaches it cut at that byte.
pub fn to_native(text: &str) -> (bytes: Vec<u8>)
    ensures
        bytes@ == terminated(text.spec_bytes()),
{
    let mut bytes = text.as_bytes_vec();
    bytes.push(TERMINATOR);
    bytes
}

/// A fresh buffer for the toolkit to write text into.
pub fn out_buffer() -> (buffer: Vec<u8>)
    ensures
        buffer@ == blank(),
{
    let mut buffer: Vec<u8> = Vec::new();
    while buffer.len() < MAX_LEN_OUT
        invariant
            buffer@.len() <= MAX_LEN_OUT,
            forall|i: int| 0 <= i < buffer@.len() ==> buffer@[i] == TERMINATOR,
        decreases MAX_LEN_OUT - buffer@.len(),
    {
        buffer.push(TERMINATOR);
    }
    buffer
}

/// The length to declare to the toolkit for a buffer made by [`out_buffer`].
pub fn declare(len: i32) -> (declared: i32)
    ensures
        declared == declared_len(len as int),
{
    if len < 0 {
        0
    } else if len > MAX_LEN_OUT as i32 {
        MAX_LEN_OUT as i32
    } else {
        len
    }
}

/// The length to declare to the toolkit for a buffer made by [`out_buffer`], for
/// a caller that counts in `usize`.
pub fn declare_size(len: usize) -> (declared: i32)
    ensures
        declared == declared_len(len as int),
{
    if len > MAX_LEN_OUT {
        MAX_LEN_OUT as i32
    } else {
        len as i32
    }
}

/// Turns an integer flag of the toolkit into a `bool`.
pub fn flag(value: i32) -> (set: bool)
    ensures
        set == flag_is_set(value),
{
    value != 0
}

/// Counts the bytes that the toolkit wrote into `buffer`.
pub fn measure(buffer: &Vec<u8>, limit: usize) -> (len: usize)
    ensures
        len == written_len(buffer@, limit as int),
{
    let mut len: usize = 0;
    proof {
        assert(buffer@.skip(0) =~= buffer@);
    }
    while len < buffer.len() && len < limit && buffer[len] != TERMINATOR
        invariant
            len <= buffer@.len(),
            len <= limit,
            written_len(buffer@, limit as int) == len + written_len(
                buffer@.skip(len as int),
                limit - len,
            ),
        decreases buffer@.len() - len,
    {
        proof {
            let rest = buffer@.skip(len as int);
            assert(rest[0] == buffer@[len as int]);
            assert(rest.skip(1) =~= buffer@.skip(len + 1));
        }
        len = len + 1;
    }
    proof {
        let rest = buffer@.skip(len as int);
        if len < buffer@.len() {
            assert(rest[0] == buffer@[len as int]);
        }
    }
    len
}

/// Copies what the toolkit wrote out of `buffer`.
pub fn copy_written(buffer: &Vec<u8>, limit: usize) -> (bytes: Vec<u8>)
    ensures
        bytes@ == written(buffer@, limit as int),
{
    let len = measure(buffer, limit);
    proof {
        lemma_written_len(buffer@, limit as int);
    }
    let mut bytes: Vec<u8> = Vec::new();
    let mut at: usize = 0;
    while at < len
        invariant
            at <= len <= buffer@.len(),
            bytes@ == buffer@.take(at as int),
        decreases len - at,
    {
        bytes.push(buffer[at]);
        proof {
            assert(buffer@.take(at + 1) =~= buffer@.take(at as int).push(buffer@[at as int]));
        }
        at = at + 1;
    }
    bytes
}

/// Copies `bytes`, with a question mark for every byte that is not ASCII.
pub fn copy_plain(bytes: &Vec<u8>) -> (copy: Vec<u8>)
    ensures
        copy@ == plain(bytes@),
{
    let mut copy: Vec<u8> = Vec::new();
    let mut at: usize = 0;
    while at < bytes.len()
        invariant
            at <= bytes@.len(),
            copy@ == plain(bytes@).take(at as int),
        decreases bytes@.len() - at,
    {
        let byte = bytes[at];
        copy.push(if byte <= 0x7f { byte } else { UNREADABLE });
        proof {
            assert(plain(bytes@).take(at + 1) =~= plain(bytes@).take(at as int).push(
                plain(bytes@)[at as int],
            ));
        }
        at = at + 1;
    }
    proof {
        assert(plain(bytes@).take(at as int) =~= plain(bytes@));
    }
    copy
}

/// Makes a `String` of bytes with `String::from_utf8`. The contract says what the
/// standard library documents: the call succeeds on valid UTF-8 and on nothing
/// else, and the string that comes out holds the characters that the bytes encode.
#[verifier::external_body]
fn decode(bytes: Vec<u8>) -> (text: Option<String>)
    ensures
        text is Some <==> valid_utf8(bytes@),
        text matches Some(decoded) ==> decoded@ == decode_utf8(bytes@),
{
    match String::from_utf8(bytes) {
        Ok(decoded) => Some(decoded),
        Err(_) => None,
    }
}

/// Reads back, as owned text, what the toolkit wrote into `buffer` when it was
/// told that it may use `limit` bytes. What it wrote is taken as UTF-8; where it
/// is not UTF-8, every byte that is not ASCII is taken for a question mark.
pub fn from_native(buffer: &Vec<u8>, limit: usize) -> (text: String)
    ensures
        text@ == read_back(buffer@, limit as int),
{
    let bytes = copy_written(buffer, limit);
    let plain = copy_plain(&bytes);
    match decode(bytes) {
        Some(text) => text,
        None => {
            proof {
                lemma_plain_is_text(written(buffer@, limit as int));
            }
            match decode(plain) {
                Some(text) => text,
                None => String::new(),
            }
        },
    }
}

} // verus!
