//! Byte strings: comparison, copies, newline-separated fields and tokens.

use vstd::prelude::*;

verus! {

/// The byte that separates the fields of a request parameter.
pub const FIELD_BREAK: u8 = 10;

/// Position of the first field break at or after `from`, or the length of
/// `s` where there is none.
pub open spec fn break_at(s: Seq<u8>, from: int) -> int
    decreases s.len() - from,
{
    if from >= s.len() {
        s.len() as int
    } else if s[from] == FIELD_BREAK {
        from
    } else {
        break_at(s, from + 1)
    }
}

/// The `n`-th field of what `s` holds from `from` on. A text always has a
/// field 0; a break opens the next field, which may be empty.
pub open spec fn field_from(s: Seq<u8>, from: int, n: nat) -> Option<Seq<u8>>
    decreases n,
{
    let end = break_at(s, from);
    if n == 0 {
        Some(s.subrange(from, end))
    } else if end >= s.len() {
        None
    } else {
        field_from(s, end + 1, (n - 1) as nat)
    }
}

/// The `n`-th newline-separated field of `s`, counted from 0.
pub open spec fn field(s: Seq<u8>, n: nat) -> Option<Seq<u8>> {
    field_from(s, 0, n)
}

/// `token` stands in `s` at position `i`.
pub open spec fn occurs_at(s: Seq<u8>, i: int, token: Seq<u8>) -> bool {
    &&& 0 <= i
    &&& token.len() > 0
    &&& i + token.len() <= s.len()
    &&& s.subrange(i, i + token.len()) == token
}

/// Whether two byte strings hold the same bytes.
pub fn bytes_eq(a: &[u8], b: &[u8]) -> (same: bool)
    ensures
        same == (a@ == b@),
{
    if a.len() != b.len() {
        return false;
    }
    let n: usize = a.len();
    let mut i: usize = 0;
    while i < n
        invariant
            n == a@.len(),
            n == b@.len(),
            i <= n,
            forall|j: int| 0 <= j < i ==> a@[j] == b@[j],
        decreases n - i,
    {
        if a[i] != b[i] {
            return false;
        }
        i += 1;
    }
    assert(a@ =~= b@);
    true
}

/// Copies the bytes of `s` from `from` up to `to`.
pub fn copy_range(s: &[u8], from: usize, to: usize) -> (out: Vec<u8>)
    requires
        from <= to <= s@.len(),
    ensures
        out@ == s@.subrange(from as int, to as int),
{
    let mut out: Vec<u8> = Vec::new();
    let mut i: usize = from;
    while i < to
        invariant
            from <= i <= to,
            to <= s@.len(),
            out@ == s@.subrange(from as int, i as int),
        decreases to - i,
    {
        out.push(s[i]);
        assert(out@ =~= s@.subrange(from as int, i + 1));
        i += 1;
    }
    out
}

/// Copies all bytes of `s`.
pub fn copy_all(s: &[u8]) -> (out: Vec<u8>)
    ensures
        out@ == s@,
{
    let out = copy_range(s, 0, s.len());
    assert(s@.subrange(0, s@.len() as int) =~= s@);
    out
}

/// Finds the end of the field that starts at `from`.
pub fn find_break(s: &[u8], from: usize) -> (end: usize)
    requires
        from <= s@.len(),
    ensures
        end == break_at(s@, from as int),
        from <= end <= s@.len(),
        forall|j: int| from <= j < end ==> s@[j] != FIELD_BREAK,
        end < s@.len() ==> s@[end as int] == FIELD_BREAK,
{
    let n: usize = s.len();
    let mut i: usize = from;
    while i < n && s[i] != FIELD_BREAK
        invariant
            n == s@.len(),
            from <= i <= n,
            break_at(s@, from as int) == break_at(s@, i as int),
            forall|j: int| from <= j < i ==> s@[j] != FIELD_BREAK,
        decreases n - i,
    {
        i += 1;
    }
    i
}

/// Returns the `n`-th newline-separated field of `s`, if `s` has that many breaks.
pub fn nth_field(s: &[u8], n: usize) -> (out: Option<Vec<u8>>)
    ensures
        out.is_some() == field(s@, n as nat).is_some(),
        out.is_some() ==> out.unwrap()@ == field(s@, n as nat).unwrap(),
{
    let mut start: usize = 0;
    let mut left: usize = n;
    loop
        invariant
            start <= s@.len(),
            left <= n,
            field(s@, n as nat) == field_from(s@, start as int, left as nat),
        decreases left,
    {
        let end: usize = find_break(s, start);
        if left == 0 {
            return Some(copy_range(s, start, end));
        }
        if end >= s.len() {
            return None;
        }
        start = end + 1;
        left -= 1;
    }
}

/// Whether `token` stands in `s` at position `i`.
pub fn token_at(s: &[u8], i: usize, token: &[u8]) -> (found: bool)
    requires
        i <= s@.len(),
    ensures
        found == occurs_at(s@, i as int, token@),
{
    let n: usize = s.len();
    let m: usize = token.len();
    if m == 0 || m > n - i {
        return false;
    }
    let mut k: usize = 0;
    while k < m
        invariant
            m == token@.len(),
            n == s@.len(),
            i + m <= n,
            k <= m,
            forall|j: int| 0 <= j < k ==> s@[i + j] == token@[j],
        decreases m - k,
    {
        if s[i + k] != token[k] {
            assert(s@.subrange(i as int, i + m)[k as int] != token@[k as int]);
            return false;
        }
        k += 1;
    }
    assert(s@.subrange(i as int, i + m) =~= token@);
    true
}

/// Appends the bytes of `tail` to `out`.
pub fn append(out: &mut Vec<u8>, tail: &[u8])
    ensures
        final(out)@ == old(out)@ + tail@,
{
    let n: usize = tail.len();
    let mut k: usize = 0;
    while k < n
        invariant
            n == tail@.len(),
            k <= n,
            out@ == old(out)@ + tail@.subrange(0, k as int),
        decreases n - k,
    {
        out.push(tail[k]);
        assert(out@ =~= old(out)@ + tail@.subrange(0, k + 1));
        k += 1;
    }
    assert(tail@.subrange(0, n as int) =~= tail@);
}

} // verus!
