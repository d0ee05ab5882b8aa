//! Framing of the serial byte stream into text lines.
//!
//! Bytes arrive in a `bytes::BytesMut` buffer. A line is everything up to
//! and including the first `\n`; its text is the line without that
//! terminator and without a `\r` just before it.
use bytes::BytesMut;
use vstd::prelude::*;
use vstd::utf8::{decode_utf8, valid_utf8};

verus! {

#[verifier::external_type_specification]
#[verifier::external_body]
pub struct ExBytesMut(BytesMut);

/// Byte of the line terminator `\n`.
pub const NEWLINE: u8 = 10;

/// Byte of the carriage return `\r`.
pub const CARRIAGE_RETURN: u8 = 13;

/// The bytes that a buffer holds, front first.
pub uninterp spec fn buffered(b: BytesMut) -> Seq<u8>;

/// Relies on `BytesMut`'s `AsRef<[u8]>`: the bytes that the buffer holds.
#[verifier::external_body]
fn buffered_bytes(b: &BytesMut) -> (r: &[u8])
    ensures
        r@ == buffered(*b),
{
    b.as_ref()
}

/// Relies on `BytesMut::split_to`: the first `at` bytes move into the
/// returned buffer and the rest stay. It panics when `at` exceeds the length.
#[verifier::external_body]
fn split_front(b: &mut BytesMut, at: usize) -> (r: BytesMut)
    requires
        at <= buffered(*old(b)).len(),
    ensures
        buffered(r) == buffered(*old(b)).take(at as int),
        buffered(*final(b)) == buffered(*old(b)).skip(at as int),
{
    b.split_to(at)
}

/// Relies on `std::str::from_utf8`: text exactly when the bytes are valid
/// UTF-8, and then the characters that they encode.
#[verifier::external_body]
fn utf8_text(b: &[u8]) -> (r: Option<String>)
    ensures
        r is Some <==> valid_utf8(b@),
        r is Some ==> r->0@ == decode_utf8(b@),
{
    match std::str::from_utf8(b) {
        Ok(s) => Some(s.to_string()),
        Err(_) => None,
    }
}

/// Why a line could not be handed on.
#[derive(Clone, Copy, Debug, PartialEq, Eq, Structural)]
pub enum FrameError {
    /// The line's bytes are not valid UTF-8.
    InvalidUtf8,
}

/// Whether none of the first `n` bytes of `s` is a line terminator.
pub open spec fn no_newline_before(s: Seq<u8>, n: int) -> bool {
    forall|j: int| 0 <= j < n ==> s[j] != NEWLINE
}

/// Whether the first line terminator of `s` stands at `n`.
pub open spec fn first_newline_at(s: Seq<u8>, n: int) -> bool {
    0 <= n < s.len() && s[n] == NEWLINE && no_newline_before(s, n)
}

/// The text bytes of a line that ends in its terminator: without the
/// terminator, and without a carriage return just before it.
pub open spec fn line_content(line: Seq<u8>) -> Seq<u8> {
    let body = line.drop_last();
    if body.len() > 0 && body.last() == CARRIAGE_RETURN {
        body.drop_last()
    } else {
        body
    }
}

/// Position of the first line terminator in `buf`, if there is one.
pub fn find_newline(buf: &[u8]) -> (r: Option<usize>)
    ensures
        match r {
            Some(i) => first_newline_at(buf@, i as int),
            None => no_newline_before(buf@, buf@.len() as int),
        },
{
    let mut i: usize = 0;
    while i < buf.len()
        invariant
            i <= buf@.len(),
            no_newline_before(buf@, i as int),
        decreases buf@.len() - i,
    {
        if buf[i] == NEWLINE {
            return Some(i);
        }
        i = i + 1;
    }
    None
}

/// Takes the first complete line out of `src`.
///
/// Without a terminator in `src`, nothing is taken and the result is
/// `Ok(None)`. Otherwise the line, terminator included, leaves the buffer,
/// and its text comes back, or `InvalidUtf8` where its bytes are not UTF-8.
pub fn take_line(src: &mut BytesMut) -> (r: Result<Option<String>, FrameError>)
    ensures
        no_newline_before(buffered(*old(src)), buffered(*old(src)).len() as int) ==> r == Ok::<
            Option<String>,
            FrameError,
        >(None) && buffered(*final(src)) == buffered(*old(src)),
        forall|n: int| #[trigger]
            first_newline_at(buffered(*old(src)), n) ==> {
                let content = line_content(buffered(*old(src)).take(n + 1));
                &&& buffered(*final(src)) == buffered(*old(src)).skip(n + 1)
                &&& valid_utf8(content) ==> r is Ok && r->Ok_0 is Some && r->Ok_0->0@
                    == decode_utf8(content)
                &&& !valid_utf8(content) ==> r == Err::<Option<String>, FrameError>(
                    FrameError::InvalidUtf8,
                )
            },
{
    let ghost before = buffered(*src);
    let held = buffered_bytes(src);
    let held_len = held.len();
    match find_newline(held) {
        None => Ok(None),
        Some(n) => {
            assert(n < held_len);
            assert forall|m: int| #[trigger] first_newline_at(before, m) implies m == n as int by {
                if m < n as int {
                    assert(before[m] != NEWLINE);
                } else if m > n as int {
                    assert(before[n as int] != NEWLINE);
                }
            }
            let line = split_front(src, n + 1);
            let bytes = buffered_bytes(&line);
            let ghost frame = before.take(n as int + 1);
            assert(frame.drop_last() =~= frame.take(n as int));
            let len: usize = if n > 0 && bytes[n - 1] == CARRIAGE_RETURN {
                n - 1
            } else {
                n
            };
            let content = &bytes[0..len];
            assert(content@ =~= line_content(frame));
            match utf8_text(content) {
                Some(text) => Ok(Some(text)),
                None => Err(FrameError::InvalidUtf8),
            }
        },
    }
}

} // verus!
