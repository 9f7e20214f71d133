//! Writes into caller-supplied buffers of fixed capacity.
//!
//! A value is copied whole or not at all. Bytes behind what was written keep
//! what they held before the call.

use vstd::prelude::*;

verus! {

/// The byte that ends a text value in a buffer.
pub const TERMINATOR: u8 = 0;

/// A text of `len` bytes and its terminator fit a buffer of `capacity`
/// bytes only with room to spare: `len + 1` must stay below `capacity`.
pub open spec fn text_fits(len: nat, capacity: nat) -> bool {
    len + 1 < capacity
}

/// Raw bytes carry no terminator and fit whenever the buffer is not shorter.
pub open spec fn binary_fits(len: nat, capacity: nat) -> bool {
    len <= capacity
}

/// `before` with its first bytes replaced by `head`.
pub open spec fn overlay(before: Seq<u8>, head: Seq<u8>) -> Seq<u8>
    recommends
        head.len() <= before.len(),
{
    head + before.subrange(head.len() as int, before.len() as int)
}

/// The buffer after a text write: the text, a terminator and the old tail
/// where the text fits, the old contents where it does not.
pub open spec fn after_text(before: Seq<u8>, text: Seq<u8>) -> Seq<u8> {
    if text_fits(text.len(), before.len()) {
        overlay(before, text.push(TERMINATOR))
    } else {
        before
    }
}

/// The buffer after a write of raw bytes.
pub open spec fn after_binary(before: Seq<u8>, data: Seq<u8>) -> Seq<u8> {
    if binary_fits(data.len(), before.len()) {
        overlay(before, data)
    } else {
        before
    }
}

/// The buffer after a failed text request: the buffer after a write of
/// the empty text. The terminator alone must fit with room to spare, so a
/// buffer of fewer than two bytes stays as it was.
pub open spec fn after_empty_text(before: Seq<u8>) -> Seq<u8> {
    after_text(before, Seq::empty())
}

/// Copies `src` over the first bytes of `dest`.
fn copy_head(dest: &mut [u8], src: &[u8])
    requires
        src@.len() <= old(dest)@.len(),
    ensures
        final(dest)@ == overlay(old(dest)@, src@),
        final(dest)@.len() == old(dest)@.len(),
{
    let ghost before = dest@;
    let n: usize = src.len();
    let mut i: usize = 0;
    while i < n
        invariant
            n == src@.len(),
            i <= n,
            n <= dest@.len(),
            dest@.len() == before.len(),
            forall|j: int| 0 <= j < i ==> dest@[j] == src@[j],
            forall|j: int| i <= j < dest@.len() ==> dest@[j] == before[j],
        decreases n - i,
    {
        dest[i] = src[i];
        i += 1;
    }
    assert(dest@ =~= overlay(before, src@));
}

/// Writes `text` and a terminator at the start of `dest` if both fit with
/// room to spare, and leaves `dest` as it was otherwise. Returns whether
/// the text was written.
pub fn write_text(dest: &mut [u8], text: &[u8]) -> (written: bool)
    ensures
        written == text_fits(text@.len(), old(dest)@.len()),
        final(dest)@ == after_text(old(dest)@, text@),
        final(dest)@.len() == old(dest)@.len(),
        written ==> final(dest)@.subrange(0, text@.len() as int) == text@ && final(dest)@[text@.len() as int]
            == TERMINATOR,
        written ==> forall|j: int|
            text@.len() < j < old(dest)@.len() ==> final(dest)@[j] == old(dest)@[j],
        !written ==> final(dest)@ == old(dest)@,
{
    let ghost before = dest@;
    let n: usize = text.len();
    let capacity: usize = dest.len();
    if n < capacity && n + 1 < capacity {
        copy_head(dest, text);
        dest[n] = TERMINATOR;
        assert(dest@ =~= overlay(before, text@.push(TERMINATOR)));
        assert(dest@.subrange(0, n as int) =~= text@);
        true
    } else {
        false
    }
}

/// Writes `data` at the start of `dest` if it fits, and leaves `dest` as it
/// was otherwise. Nothing is added before or behind the bytes. Returns
/// whether the bytes were written.
pub fn write_binary(dest: &mut [u8], data: &[u8]) -> (written: bool)
    ensures
        written == binary_fits(data@.len(), old(dest)@.len()),
        final(dest)@ == after_binary(old(dest)@, data@),
        final(dest)@.len() == old(dest)@.len(),
        written ==> final(dest)@.subrange(0, data@.len() as int) == data@,
        written ==> forall|j: int|
            data@.len() <= j < old(dest)@.len() ==> final(dest)@[j] == old(dest)@[j],
        !written ==> final(dest)@ == old(dest)@,
{
    let ghost before = dest@;
    if data.len() <= dest.len() {
        copy_head(dest, data);
        assert(dest@.subrange(0, data@.len() as int) =~= data@);
        true
    } else {
        false
    }
}

/// Makes `dest` hold the empty text, by the rule of every text write: a
/// buffer of fewer than two bytes is not touched. Returns whether the
/// terminator was written.
pub fn write_empty_text(dest: &mut [u8]) -> (written: bool)
    ensures
        written == text_fits(0, old(dest)@.len()),
        final(dest)@ == after_empty_text(old(dest)@),
        final(dest)@.len() == old(dest)@.len(),
        written ==> final(dest)@ == old(dest)@.update(0, TERMINATOR),
        !written ==> final(dest)@ == old(dest)@,
{
    let ghost before = dest@;
    if dest.len() > 1 {
        dest[0] = TERMINATOR;
        assert(dest@ =~= overlay(before, Seq::<u8>::empty().push(TERMINATOR)));
        true
    } else {
        false
    }
}

/// A text write never changes a buffer partially: the buffer either holds
/// the whole text with its terminator in front of its old tail, or is
/// byte for byte what it was.
pub proof fn text_write_is_all_or_nothing(before: Seq<u8>, text: Seq<u8>)
    ensures
        after_text(before, text).len() == before.len(),
        text.len() + 1 < before.len() ==> {
            &&& after_text(before, text).subrange(0, text.len() as int) == text
            &&& after_text(before, text)[text.len() as int] == TERMINATOR
            &&& forall|j: int|
                text.len() < j < before.len() ==> after_text(before, text)[j] == before[j]
        },
        text.len() + 1 >= before.len() ==> after_text(before, text) == before,
{
    if text.len() + 1 < before.len() {
        assert(after_text(before, text).subrange(0, text.len() as int) =~= text);
    }
}

/// A text that is exactly one byte shorter than the buffer is not written:
/// its terminator would take the last byte, and the capacity test is strict.
pub proof fn text_of_capacity_minus_one_is_dropped(before: Seq<u8>, text: Seq<u8>)
    requires
        text.len() + 1 == before.len(),
    ensures
        !text_fits(text.len(), before.len()),
        after_text(before, text) == before,
{
}

} // verus!
