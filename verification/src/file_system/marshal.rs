//! Text across the foreign boundary.
//!
//! A foreign string is a run of bytes in memory that ends at the first zero
//! byte, the terminator. Here the memory is a byte slice and a null pointer
//! is `None`. Text is UTF-8 in both directions, and text that is written
//! gets its terminator.

use std::string::String;
use vstd::prelude::*;
use vstd::string::StringSliceAdditionalSpecFns;
use vstd::utf8::{decode_utf8, encode_utf8, valid_utf8};

verus! {

/// `std::str::Utf8Error`, carried through as an opaque value.
#[verifier::external_type_specification]
#[verifier::external_body]
pub struct ExUtf8Error(std::str::Utf8Error);

/// `std::str::from_utf8` succeeds on the byte slices that are valid UTF-8 and
/// on no others, and the string slice it then returns has the bytes that it
/// was given.
pub assume_specification[ std::str::from_utf8 ](v: &[u8]) -> (text: Result<
    &str,
    std::str::Utf8Error,
>)
    ensures
        text is Ok <==> valid_utf8(v@),
        text matches Ok(s) ==> s.spec_bytes() == v@,
;

/// The bytes of the foreign string that starts `memory`: those before the
/// first zero byte. `None` where `memory` holds no zero byte.
pub open spec fn c_string_bytes(memory: Seq<u8>) -> Option<Seq<u8>> {
    match memory.index_of_first(0u8) {
        Some(end) => Some(memory.take(end)),
        None => None,
    }
}

/// The text of the foreign string at `c_string`. `None` for a null pointer,
/// for memory without a terminator, and for bytes that are not valid UTF-8.
pub open spec fn foreign_text(c_string: Option<Seq<u8>>) -> Option<Seq<char>> {
    match c_string {
        Some(memory) => match c_string_bytes(memory) {
            Some(bytes) => if valid_utf8(bytes) {
                Some(decode_utf8(bytes))
            } else {
                None
            },
            None => None,
        },
        None => None,
    }
}

/// The view of an optional byte slice.
pub open spec fn memory_view(c_string: Option<&[u8]>) -> Option<Seq<u8>> {
    match c_string {
        Some(memory) => Some(memory@),
        None => None,
    }
}

/// The view of an optional string.
pub open spec fn text_view(text: Option<String>) -> Option<Seq<char>> {
    match text {
        Some(s) => Some(s@),
        None => None,
    }
}

/// The foreign buffer `before` after `text` was written to its start as a
/// foreign string: the UTF-8 bytes of the text, the terminator, then what the
/// buffer held behind them.
pub open spec fn buffer_with_text(before: Seq<u8>, text: Seq<char>) -> Seq<u8> {
    encode_utf8(text) + seq![0u8] + before.skip(encode_utf8(text).len() as int + 1)
}

/// The number of bytes of `memory` before its first zero byte, or `None`
/// where it holds none. Reads no byte behind the terminator.
fn terminator_index(memory: &[u8]) -> (found: Option<usize>)
    ensures
        match found {
            Some(end) => end < memory@.len() && memory@.index_of_first(0u8) == Some(end as int),
            None => memory@.index_of_first(0u8) is None,
        },
{
    let mut i: usize = 0;
    while i < memory.len()
        invariant
            i <= memory@.len(),
            forall|j: int| 0 <= j < i ==> memory@[j] != 0,
        decreases memory@.len() - i,
    {
        if memory[i] == 0 {
            proof {
                assert(memory@.contains(0u8));
                memory@.index_of_first_ensures(0u8);
            }
            return Some(i);
        }
        i = i + 1;
    }
    proof {
        memory@.index_of_first_ensures(0u8);
    }
    None
}

/// Decodes the foreign string at `c_string_pointer`.
///
/// Returns the text before the terminator, or `None` where the pointer is
/// null, the memory holds no terminator or the bytes before it are not valid
/// UTF-8.
pub fn c_string_to_str(c_string_pointer: Option<&[u8]>) -> (result: Option<String>)
    ensures
        text_view(result) == foreign_text(memory_view(c_string_pointer)),
{
    broadcast use vstd::utf8::group_utf8_lib;

    let memory = match c_string_pointer {
        Some(memory) => memory,
        None => {
            return None;
        },
    };
    let end = match terminator_index(memory) {
        Some(end) => end,
        None => {
            return None;
        },
    };
    let value_ref: &[u8] = vstd::slice::slice_subrange(memory, 0, end);
    assert(value_ref@ == memory@.take(end as int));
    let value: Result<&str, std::str::Utf8Error> = std::str::from_utf8(value_ref);
    match value {
        Ok(res) => Some(res.to_owned()),
        Err(_) => None,
    }
}

/// Writes `value` as a foreign string to the start of the buffer at
/// `c_string_pointer`, and says whether it did: `false` for a null pointer.
///
/// The buffer must have room for the bytes of `value` and the terminator.
/// The bytes of `value` are followed by the terminator, and the bytes of the
/// buffer behind the terminator stay as they were.
pub fn str_to_c_string(value: String, c_string_pointer: Option<&mut [u8]>) -> (done: bool)
    requires
        c_string_pointer matches Some(buffer) ==> encode_utf8(value@).len() + 1 <= buffer@.len(),
    ensures
        done == (c_string_pointer is Some),
        c_string_pointer matches Some(buffer) ==> final(buffer)@ == buffer_with_text(
            buffer@,
            value@,
        ),
{
    let buffer = match c_string_pointer {
        Some(buffer) => buffer,
        None => {
            return false;
        },
    };
    let ghost before = buffer@;
    let value_ptr = value.as_str().as_bytes();
    let n = value_ptr.len();
    let mut i: usize = 0;
    while i < n
        invariant
            n == value_ptr@.len(),
            i <= n,
            n < buffer@.len(),
            buffer@.len() == before.len(),
            forall|j: int| 0 <= j < i ==> buffer@[j] == value_ptr@[j],
            forall|j: int| i <= j < before.len() ==> buffer@[j] == before[j],
        decreases n - i,
    {
        buffer[i] = value_ptr[i];
        i = i + 1;
    }
    buffer[n] = 0;
    assert(buffer@ =~= value_ptr@ + seq![0u8] + before.skip(n + 1));
    true
}

/// The text of a foreign string depends on nothing behind its terminator:
/// where `head` holds no zero byte, memory that starts with `head` and a zero
/// byte has the bytes of `head` as its string, whatever follows.
pub proof fn lemma_text_ends_at_terminator(head: Seq<u8>, tail: Seq<u8>)
    requires
        !head.contains(0u8),
    ensures
        c_string_bytes(head + seq![0u8] + tail) == Some(head),
        foreign_text(Some(head + seq![0u8] + tail)) == foreign_text(Some(head + seq![0u8])),
{
    lemma_terminated(head, tail);
    lemma_terminated(head, Seq::<u8>::empty());
    assert(head + seq![0u8] + Seq::<u8>::empty() =~= head + seq![0u8]);
}

/// Text that was written to a buffer reads back from it: where the bytes of
/// `text` hold no zero byte, the foreign string at the start of the buffer
/// decodes to `text`, whatever the buffer held before.
pub proof fn lemma_written_text_reads_back(before: Seq<u8>, text: Seq<char>)
    requires
        !encode_utf8(text).contains(0u8),
    ensures
        foreign_text(Some(buffer_with_text(before, text))) == Some(text),
{
    broadcast use vstd::utf8::group_utf8_lib;

    lemma_terminated(encode_utf8(text), before.skip(encode_utf8(text).len() as int + 1));
}

/// Memory that starts with `head` and a zero byte has the bytes of `head` as
/// its string, where `head` holds no zero byte.
proof fn lemma_terminated(head: Seq<u8>, tail: Seq<u8>)
    requires
        !head.contains(0u8),
    ensures
        c_string_bytes(head + seq![0u8] + tail) == Some(head),
{
    let memory = head + seq![0u8] + tail;
    let end = head.len() as int;
    assert(memory[end] == 0u8);
    assert(memory.contains(0u8));
    memory.index_of_first_ensures(0u8);
    let first = memory.index_of_first(0u8)->Some_0;
    if first < end {
        assert(head[first] == memory[first]);
        assert(head.contains(0u8));
    }
    assert(first == end);
    assert(memory.take(end) =~= head);
}

} // verus!
