//! Wide-character strings and wide-character memory.
//!
//! A wide string lies in a slice and ends at its first null; what follows the
//! null is not part of the string. Where a C function hands back a pointer into
//! a string, the function here hands back the index. Wide memory is a slice and
//! a count, with no regard to nulls.
use vstd::prelude::*;
use crate::types::{c_int, c_ulong};

verus! {

/// A wide character.
pub type wchar_t = i32;

/// A wide character, or the end of the input.
pub type wint_t = u32;

/// The end of the input where single bytes are read.
pub const EOF: c_int = -1;

/// The end of the input where wide characters are read.
pub const WEOF: wint_t = 0xFFFF_FFFF;

/// The state of a conversion between bytes and wide characters. The encoding
/// has no shift states, so there is nothing to keep.
#[derive(Clone, Copy)]
pub struct mbstate_t;

/// The index of the first null at or after `from`, or the length of `ws` where
/// there is none.
pub open spec fn null_from(ws: Seq<wchar_t>, from: int) -> int
    decreases ws.len() - from,
{
    if from < 0 || from >= ws.len() || ws[from] == 0 {
        from
    } else {
        null_from(ws, from + 1)
    }
}

/// The length of the string in `ws`: the number of wide characters before the
/// first null, or all of them where no null ends the string.
pub open spec fn wcslen_spec(ws: Seq<wchar_t>) -> int {
    null_from(ws, 0)
}

/// A null ends the string inside `ws`.
pub open spec fn terminated(ws: Seq<wchar_t>) -> bool {
    wcslen_spec(ws) < ws.len()
}

/// The wide characters of the string in `ws`, without the null.
pub open spec fn text(ws: Seq<wchar_t>) -> Seq<wchar_t> {
    ws.subrange(0, wcslen_spec(ws))
}

/// The first null at or after `from` is where it is said to be.
pub proof fn lemma_null_from_is_first(ws: Seq<wchar_t>, from: int)
    requires
        0 <= from <= ws.len(),
    ensures
        from <= null_from(ws, from) <= ws.len(),
        forall|i: int| from <= i < null_from(ws, from) ==> ws[i] != 0,
        null_from(ws, from) < ws.len() ==> ws[null_from(ws, from)] == 0,
    decreases ws.len() - from,
{
    if from < ws.len() && ws[from] != 0 {
        lemma_null_from_is_first(ws, from + 1);
    }
}

/// The length of a string is the place of its first null: no wide character
/// before it is null, and where the string is terminated a null stands there.
pub proof fn lemma_wcslen(ws: Seq<wchar_t>)
    ensures
        0 <= wcslen_spec(ws) <= ws.len(),
        forall|i: int| 0 <= i < wcslen_spec(ws) ==> ws[i] != 0,
        terminated(ws) ==> ws[wcslen_spec(ws)] == 0,
        terminated(ws) <==> exists|i: int| 0 <= i < ws.len() && ws[i] == 0,
        text(ws).len() == wcslen_spec(ws),
{
    lemma_null_from_is_first(ws, 0);
    if exists|i: int| 0 <= i < ws.len() && ws[i] == 0 {
        let i: int = choose|i: int| 0 <= i < ws.len() && ws[i] == 0;
        if wcslen_spec(ws) >= ws.len() {
            assert(ws[i] != 0);
        }
    }
}

/// Tells whether a conversion state is the initial state; no state at all
/// counts as initial, a state that is given does not.
pub fn mbsinit(ps: Option<&mbstate_t>) -> (initial: c_int)
    ensures
        initial == (if ps is None {
            1i32
        } else {
            0i32
        }),
{
    match ps {
        None => 1,
        Some(_) => 0,
    }
}

/// Gives the single byte that stands for the wide character `c`, or `EOF`
/// where no single byte does: the characters up to 0x7F are their own bytes.
pub fn wctob(c: wint_t) -> (byte: c_int)
    ensures
        c <= 0x7F ==> byte == c,
        c > 0x7F ==> byte == EOF,
{
    if c <= 0x7F {
        c as c_int
    } else {
        EOF
    }
}

/// Counts the wide characters before the first null.
fn length(ws: &[wchar_t]) -> (len: usize)
    requires
        terminated(ws@),
    ensures
        len == wcslen_spec(ws@),
        len < ws@.len(),
{
    proof {
        lemma_wcslen(ws@);
    }
    let mut i: usize = 0;
    while ws[i] != 0
        invariant
            0 <= i < ws@.len(),
            i <= wcslen_spec(ws@) < ws@.len(),
            ws@[wcslen_spec(ws@)] == 0,
            forall|j: int| 0 <= j < wcslen_spec(ws@) ==> ws@[j] != 0,
        decreases ws@.len() - i,
    {
        i += 1;
    }
    i
}

/// Gives the length of the string in `ws`.
pub fn wcslen(ws: &[wchar_t]) -> (len: c_ulong)
    requires
        terminated(ws@),
    ensures
        len == wcslen_spec(ws@),
        len < ws@.len(),
        ws@[len as int] == 0,
        forall|i: int| 0 <= i < len ==> ws@[i] != 0,
{
    proof {
        lemma_wcslen(ws@);
    }
    length(ws)
}

/// Finds the first place of `wc` in the string in `ws`. The null that ends the
/// string is part of what is searched, so a search for the null finds the end.
pub fn wcschr(ws: &[wchar_t], wc: wchar_t) -> (found: Option<usize>)
    requires
        terminated(ws@),
    ensures
        found matches Some(at) ==> at <= wcslen_spec(ws@) && ws@[at as int] == wc && forall|
            i: int,
        | 0 <= i < at ==> ws@[i] != wc,
        found is None ==> forall|i: int| 0 <= i <= wcslen_spec(ws@) ==> ws@[i] != wc,
{
    proof {
        lemma_wcslen(ws@);
    }
    let mut i: usize = 0;
    loop
        invariant
            0 <= i <= wcslen_spec(ws@) < ws@.len(),
            ws@[wcslen_spec(ws@)] == 0,
            forall|j: int| 0 <= j < wcslen_spec(ws@) ==> ws@[j] != 0,
            forall|j: int| 0 <= j < i ==> ws@[j] != wc,
        decreases wcslen_spec(ws@) - i,
    {
        if ws[i] == wc {
            return Some(i);
        } else if ws[i] == 0 {
            assert(i == wcslen_spec(ws@));
            return None;
        }
        i += 1;
    }
}

/// Finds the last place of `wc` in the string in `ws`. The null that ends the
/// string is not searched: a search for the null finds nothing.
pub fn wcsrchr(ws: &[wchar_t], wc: wchar_t) -> (found: Option<usize>)
    requires
        terminated(ws@),
    ensures
        found matches Some(at) ==> at < wcslen_spec(ws@) && ws@[at as int] == wc && forall|
            i: int,
        | at < i < wcslen_spec(ws@) ==> ws@[i] != wc,
        found is None ==> forall|i: int| 0 <= i < wcslen_spec(ws@) ==> ws@[i] != wc,
{
    proof {
        lemma_wcslen(ws@);
    }
    let mut last: Option<usize> = None;
    let mut i: usize = 0;
    while ws[i] != 0
        invariant
            0 <= i <= wcslen_spec(ws@) < ws@.len(),
            ws@[wcslen_spec(ws@)] == 0,
            forall|j: int| 0 <= j < wcslen_spec(ws@) ==> ws@[j] != 0,
            last matches Some(at) ==> at < i && ws@[at as int] == wc && forall|j: int|
                at < j < i ==> ws@[j] != wc,
            last is None ==> forall|j: int| 0 <= j < i ==> ws@[j] != wc,
        decreases wcslen_spec(ws@) - i,
    {
        if ws[i] == wc {
            last = Some(i);
        }
        i += 1;
    }
    last
}

/// Gives the length of the longest start of the string in `ws1` that holds no
/// wide character of the string in `ws2`.
pub fn wcscspn(ws1: &[wchar_t], ws2: &[wchar_t]) -> (span: usize)
    requires
        terminated(ws1@),
        terminated(ws2@),
    ensures
        span <= wcslen_spec(ws1@),
        forall|i: int| 0 <= i < span ==> !text(ws2@).contains(ws1@[i]),
        span == wcslen_spec(ws1@) || text(ws2@).contains(ws1@[span as int]),
{
    proof {
        lemma_wcslen(ws1@);
        lemma_wcslen(ws2@);
    }
    let mut i: usize = 0;
    loop
        invariant
            0 <= i <= wcslen_spec(ws1@) < ws1@.len(),
            ws1@[wcslen_spec(ws1@)] == 0,
            forall|j: int| 0 <= j < wcslen_spec(ws1@) ==> ws1@[j] != 0,
            terminated(ws2@),
            0 <= wcslen_spec(ws2@) < ws2@.len(),
            forall|j: int| 0 <= j < wcslen_spec(ws2@) ==> ws2@[j] != 0,
            ws2@[wcslen_spec(ws2@)] == 0,
            forall|j: int| 0 <= j < i ==> !text(ws2@).contains(ws1@[j]),
        decreases wcslen_spec(ws1@) - i,
    {
        let wc: wchar_t = ws1[i];
        if wc == 0 {
            return i;
        }
        match wcschr(ws2, wc) {
            Some(at) => {
                assert(text(ws2@)[at as int] == wc);
                return i;
            },
            None => {
                assert forall|k: int| 0 <= k < text(ws2@).len() implies text(ws2@)[k] != wc by {
                    assert(text(ws2@)[k] == ws2@[k]);
                }
            },
        }
        i += 1;
    }
}

/// Finds the first place of `wc` among the first `n` wide characters of `ws`.
pub fn wmemchr(ws: &[wchar_t], wc: wchar_t, n: usize) -> (found: Option<usize>)
    requires
        n <= ws@.len(),
    ensures
        found matches Some(at) ==> at < n && ws@[at as int] == wc && forall|i: int|
            0 <= i < at ==> ws@[i] != wc,
        found is None ==> forall|i: int| 0 <= i < n ==> ws@[i] != wc,
{
    let mut i: usize = 0;
    while i < n
        invariant
            i <= n <= ws@.len(),
            forall|j: int| 0 <= j < i ==> ws@[j] != wc,
        decreases n - i,
    {
        if ws[i] == wc {
            return Some(i);
        }
        i += 1;
    }
    None
}

/// Copies the first `n` wide characters of `ws2` to the start of `ws1`.
pub fn wmemcpy(ws1: &mut [wchar_t], ws2: &[wchar_t], n: usize)
    requires
        n <= old(ws1)@.len(),
        n <= ws2@.len(),
    ensures
        final(ws1)@ == ws2@.subrange(0, n as int) + old(ws1)@.subrange(
            n as int,
            old(ws1)@.len() as int,
        ),
{
    let mut i: usize = 0;
    while i < n
        invariant
            i <= n <= ws2@.len(),
            n <= ws1@.len(),
            ws1@.len() == old(ws1)@.len(),
            forall|j: int| 0 <= j < i ==> ws1@[j] == ws2@[j],
            forall|j: int| i <= j < ws1@.len() ==> ws1@[j] == old(ws1)@[j],
        decreases n - i,
    {
        ws1[i] = ws2[i];
        i += 1;
    }
    assert(ws1@ =~= ws2@.subrange(0, n as int) + old(ws1)@.subrange(
        n as int,
        old(ws1)@.len() as int,
    ));
}

/// Copies the first `n` wide characters of `ws2` to the start of `ws1`. The
/// two slices never overlap: one is borrowed shared, the other exclusively.
pub fn wmemmove(ws1: &mut [wchar_t], ws2: &[wchar_t], n: usize)
    requires
        n <= old(ws1)@.len(),
        n <= ws2@.len(),
    ensures
        final(ws1)@ == ws2@.subrange(0, n as int) + old(ws1)@.subrange(
            n as int,
            old(ws1)@.len() as int,
        ),
{
    wmemcpy(ws1, ws2, n)
}

/// Sets the first `n` wide characters of `ws` to `wc`.
pub fn wmemset(ws: &mut [wchar_t], wc: wchar_t, n: usize)
    requires
        n <= old(ws)@.len(),
    ensures
        final(ws)@.len() == old(ws)@.len(),
        forall|i: int| 0 <= i < n ==> final(ws)@[i] == wc,
        forall|i: int| n <= i < old(ws)@.len() ==> final(ws)@[i] == old(ws)@[i],
{
    let mut i: usize = 0;
    while i < n
        invariant
            i <= n <= ws@.len(),
            ws@.len() == old(ws)@.len(),
            forall|j: int| 0 <= j < i ==> ws@[j] == wc,
            forall|j: int| i <= j < ws@.len() ==> ws@[j] == old(ws)@[j],
        decreases n - i,
    {
        ws[i] = wc;
        i += 1;
    }
}

/// The lesser of a count and a length.
pub open spec fn at_most(n: usize, len: int) -> int {
    if n <= len {
        n as int
    } else {
        len
    }
}

/// The string in `ws2` can be read up to its end or up to `n` wide characters,
/// whichever comes first.
pub open spec fn readable(ws2: Seq<wchar_t>, n: usize) -> bool {
    terminated(ws2) || n <= ws2.len()
}

/// Copies the string in `ws2`, with the null that ends it, to the start of
/// `ws1`.
pub fn wcscpy(ws1: &mut [wchar_t], ws2: &[wchar_t])
    requires
        terminated(ws2@),
        wcslen_spec(ws2@) < old(ws1)@.len(),
    ensures
        final(ws1)@ == ws2@.subrange(0, wcslen_spec(ws2@) + 1) + old(ws1)@.subrange(
            wcslen_spec(ws2@) + 1,
            old(ws1)@.len() as int,
        ),
{
    proof {
        lemma_wcslen(ws2@);
    }
    let mut i: usize = 0;
    loop
        invariant
            0 <= i <= wcslen_spec(ws2@) < ws2@.len(),
            wcslen_spec(ws2@) < ws1@.len(),
            ws1@.len() == old(ws1)@.len(),
            ws2@[wcslen_spec(ws2@)] == 0,
            forall|j: int| 0 <= j < wcslen_spec(ws2@) ==> ws2@[j] != 0,
            forall|j: int| 0 <= j < i ==> ws1@[j] == ws2@[j],
            forall|j: int| i <= j < ws1@.len() ==> ws1@[j] == old(ws1)@[j],
        decreases wcslen_spec(ws2@) - i,
    {
        let wc: wchar_t = ws2[i];
        ws1[i] = wc;
        i += 1;
        if wc == 0 {
            assert(i == wcslen_spec(ws2@) + 1);
            assert(ws1@ =~= ws2@.subrange(0, wcslen_spec(ws2@) + 1) + old(ws1)@.subrange(
                wcslen_spec(ws2@) + 1,
                old(ws1)@.len() as int,
            ));
            return ;
        }
    }
}

/// Fills the first `n` places of `ws1` from the string in `ws2`: with its wide
/// characters while there are any, with nulls after them.
pub fn wcsncpy(ws1: &mut [wchar_t], ws2: &[wchar_t], n: usize)
    requires
        n <= old(ws1)@.len(),
        readable(ws2@, n),
    ensures
        final(ws1)@.len() == old(ws1)@.len(),
        forall|i: int|
            0 <= i < n ==> final(ws1)@[i] == (if i < wcslen_spec(ws2@) {
                ws2@[i]
            } else {
                0
            }),
        forall|i: int| n <= i < old(ws1)@.len() ==> final(ws1)@[i] == old(ws1)@[i],
{
    proof {
        lemma_wcslen(ws2@);
    }
    let mut i: usize = 0;
    while i < n
        invariant_except_break
            i <= wcslen_spec(ws2@),
        invariant
            0 <= i <= n <= ws1@.len(),
            ws1@.len() == old(ws1)@.len(),
            readable(ws2@, n),
            0 <= wcslen_spec(ws2@) <= ws2@.len(),
            terminated(ws2@) ==> ws2@[wcslen_spec(ws2@)] == 0,
            forall|j: int| 0 <= j < wcslen_spec(ws2@) ==> ws2@[j] != 0,
            forall|j: int|
                0 <= j < i ==> ws1@[j] == (if j < wcslen_spec(ws2@) {
                    ws2@[j]
                } else {
                    0
                }),
            forall|j: int| i <= j < ws1@.len() ==> ws1@[j] == old(ws1)@[j],
        ensures
            i <= n,
            i < n ==> i > wcslen_spec(ws2@),
        decreases n - i,
    {
        let wc: wchar_t = ws2[i];
        ws1[i] = wc;
        i += 1;
        if wc == 0 {
            break ;
        }
    }
    while i < n
        invariant
            0 <= i <= n <= ws1@.len(),
            ws1@.len() == old(ws1)@.len(),
            i < n ==> i > wcslen_spec(ws2@),
            forall|j: int|
                0 <= j < i ==> ws1@[j] == (if j < wcslen_spec(ws2@) {
                    ws2@[j]
                } else {
                    0
                }),
            forall|j: int| i <= j < ws1@.len() ==> ws1@[j] == old(ws1)@[j],
        decreases n - i,
    {
        ws1[i] = 0;
        i += 1;
    }
}

/// Appends to the string in `ws1` the first `n` wide characters of the string
/// in `ws2`, or all of them where there are fewer, and a null.
pub fn wcsncat(ws1: &mut [wchar_t], ws2: &[wchar_t], n: usize)
    requires
        terminated(old(ws1)@),
        readable(ws2@, n),
        wcslen_spec(old(ws1)@) + at_most(n, wcslen_spec(ws2@)) < old(ws1)@.len(),
    ensures
        final(ws1)@ == text(old(ws1)@) + ws2@.subrange(0, at_most(n, wcslen_spec(ws2@)))
            + seq![0i32] + old(ws1)@.subrange(
            wcslen_spec(old(ws1)@) + at_most(n, wcslen_spec(ws2@)) + 1,
            old(ws1)@.len() as int,
        ),
{
    proof {
        lemma_wcslen(ws1@);
        lemma_wcslen(ws2@);
    }
    let len: usize = length(ws1);
    let room: usize = ws1.len();
    let mut i: usize = 0;
    while i < n
        invariant_except_break
            i <= at_most(n, wcslen_spec(ws2@)),
        invariant
            0 <= i <= n,
            len == wcslen_spec(old(ws1)@),
            ws1@.len() == old(ws1)@.len(),
            readable(ws2@, n),
            0 <= wcslen_spec(ws2@) <= ws2@.len(),
            terminated(ws2@) ==> ws2@[wcslen_spec(ws2@)] == 0,
            forall|j: int| 0 <= j < wcslen_spec(ws2@) ==> ws2@[j] != 0,
            len + at_most(n, wcslen_spec(ws2@)) < ws1@.len() == room,
            forall|j: int| 0 <= j < len ==> ws1@[j] == old(ws1)@[j],
            forall|j: int| 0 <= j < i ==> ws1@[len + j] == ws2@[j],
            forall|j: int| len + i <= j < ws1@.len() ==> ws1@[j] == old(ws1)@[j],
        ensures
            i == at_most(n, wcslen_spec(ws2@)),
        decreases n - i,
    {
        let wc: wchar_t = ws2[i];
        if wc == 0 {
            break ;
        }
        ws1[len + i] = wc;
        i += 1;
    }
    ws1[len + i] = 0;
    assert(ws1@ =~= text(old(ws1)@) + ws2@.subrange(0, at_most(n, wcslen_spec(ws2@)))
        + seq![0i32] + old(ws1)@.subrange(
        wcslen_spec(old(ws1)@) + at_most(n, wcslen_spec(ws2@)) + 1,
        old(ws1)@.len() as int,
    ));
}

/// Appends the string in `ws2` to the string in `ws1`, with a null.
pub fn wcscat(ws1: &mut [wchar_t], ws2: &[wchar_t])
    requires
        terminated(old(ws1)@),
        terminated(ws2@),
        wcslen_spec(old(ws1)@) + wcslen_spec(ws2@) < old(ws1)@.len(),
    ensures
        final(ws1)@ == text(old(ws1)@) + text(ws2@) + seq![0i32] + old(ws1)@.subrange(
            wcslen_spec(old(ws1)@) + wcslen_spec(ws2@) + 1,
            old(ws1)@.len() as int,
        ),
{
    let room: usize = ws2.len();
    proof {
        lemma_wcslen(ws2@);
        assert(at_most(usize::MAX, wcslen_spec(ws2@)) == wcslen_spec(ws2@));
    }
    wcsncat(ws1, ws2, usize::MAX)
}

/// Both slices reach the place `at` and hold the same wide character there.
pub open spec fn same_at(ws1: Seq<wchar_t>, ws2: Seq<wchar_t>, at: int) -> bool {
    0 <= at < ws1.len() && at < ws2.len() && ws1[at] == ws2[at]
}

/// Where two strings part: the first place at or after `from` and below `n`
/// where they hold different wide characters, or where the first ends, or
/// where one of the slices ends; `n` where there is no such place.
pub open spec fn parting_from(ws1: Seq<wchar_t>, ws2: Seq<wchar_t>, n: usize, from: int) -> int
    decreases n - from,
{
    if from < 0 || from >= n || !same_at(ws1, ws2, from) || ws1[from] == 0 {
        from
    } else {
        parting_from(ws1, ws2, n, from + 1)
    }
}

/// Where two stretches of wide memory part: the first place at or after `from`
/// and below `n` where they hold different wide characters, or where one of the
/// slices ends; `n` where there is no such place.
pub open spec fn unlike_from(ws1: Seq<wchar_t>, ws2: Seq<wchar_t>, n: usize, from: int) -> int
    decreases n - from,
{
    if from < 0 || from >= n || !same_at(ws1, ws2, from) {
        from
    } else {
        unlike_from(ws1, ws2, n, from + 1)
    }
}

/// The order of two strings by their first `n` wide characters: the difference
/// of the wide characters where the strings part, zero where they do not part
/// or part at their common end.
pub open spec fn string_order(ws1: Seq<wchar_t>, ws2: Seq<wchar_t>, n: usize) -> int {
    if parting_from(ws1, ws2, n, 0) < n {
        ws1[parting_from(ws1, ws2, n, 0)] - ws2[parting_from(ws1, ws2, n, 0)]
    } else {
        0
    }
}

/// The order of two stretches of wide memory of `n` wide characters: the
/// difference of the wide characters where they part, zero where they do not.
pub open spec fn memory_order(ws1: Seq<wchar_t>, ws2: Seq<wchar_t>, n: usize) -> int {
    if unlike_from(ws1, ws2, n, 0) < n {
        ws1[unlike_from(ws1, ws2, n, 0)] - ws2[unlike_from(ws1, ws2, n, 0)]
    } else {
        0
    }
}

/// Both strings can be read up to where they part.
pub open spec fn strings_readable(ws1: Seq<wchar_t>, ws2: Seq<wchar_t>, n: usize) -> bool {
    parting_from(ws1, ws2, n, 0) < n ==> parting_from(ws1, ws2, n, 0) < ws1.len()
        && parting_from(ws1, ws2, n, 0) < ws2.len()
}

/// Two strings that agree from `from` up to `at`, without ending, and part at
/// `at`, part at `at`.
pub proof fn lemma_parting(ws1: Seq<wchar_t>, ws2: Seq<wchar_t>, n: usize, from: int, at: usize)
    requires
        0 <= from <= at <= n,
        forall|i: int| from <= i < at ==> #[trigger] same_at(ws1, ws2, i) && ws1[i] != 0,
        at == n || !same_at(ws1, ws2, at as int) || ws1[at as int] == 0,
    ensures
        parting_from(ws1, ws2, n, from) == at,
    decreases at - from,
{
    if from < at {
        lemma_parting(ws1, ws2, n, from + 1, at);
    }
}

/// Two stretches that agree from `from` up to `at` and part at `at`, part at
/// `at`.
pub proof fn lemma_unlike(ws1: Seq<wchar_t>, ws2: Seq<wchar_t>, n: usize, from: int, at: usize)
    requires
        0 <= from <= at <= n,
        forall|i: int| from <= i < at ==> #[trigger] same_at(ws1, ws2, i),
        at == n || !same_at(ws1, ws2, at as int),
    ensures
        unlike_from(ws1, ws2, n, from) == at,
    decreases at - from,
{
    if from < at {
        lemma_unlike(ws1, ws2, n, from + 1, at);
    }
}

/// Up to where two strings part they agree and have not ended.
pub proof fn lemma_before_parting(ws1: Seq<wchar_t>, ws2: Seq<wchar_t>, n: usize, from: int)
    requires
        0 <= from,
    ensures
        from <= parting_from(ws1, ws2, n, from) || from > n,
        parting_from(ws1, ws2, n, from) <= n || from > n,
        forall|i: int|
            from <= i < parting_from(ws1, ws2, n, from) ==> #[trigger] same_at(ws1, ws2, i)
                && ws1[i] != 0,
    decreases n - from,
{
    if !(from >= n || !same_at(ws1, ws2, from) || ws1[from] == 0) {
        lemma_before_parting(ws1, ws2, n, from + 1);
    }
}

/// Up to where two stretches of wide memory part they agree.
pub proof fn lemma_before_unlike(ws1: Seq<wchar_t>, ws2: Seq<wchar_t>, n: usize, from: int)
    requires
        0 <= from,
    ensures
        from <= unlike_from(ws1, ws2, n, from) || from > n,
        unlike_from(ws1, ws2, n, from) <= n || from > n,
        forall|i: int|
            from <= i < unlike_from(ws1, ws2, n, from) ==> #[trigger] same_at(ws1, ws2, i),
    decreases n - from,
{
    if !(from >= n || !same_at(ws1, ws2, from)) {
        lemma_before_unlike(ws1, ws2, n, from + 1);
    }
}

/// A place below `n` and not after the parting of two readable strings lies in
/// both slices; and where the strings agree there without ending, they part
/// later.
pub proof fn lemma_string_step(ws1: Seq<wchar_t>, ws2: Seq<wchar_t>, n: usize, at: usize)
    requires
        at < n,
        at <= parting_from(ws1, ws2, n, 0),
        strings_readable(ws1, ws2, n),
    ensures
        at < ws1.len(),
        at < ws2.len(),
        ws1[at as int] == ws2[at as int] && ws1[at as int] != 0 ==> at < parting_from(
            ws1,
            ws2,
            n,
            0,
        ),
{
    lemma_before_parting(ws1, ws2, n, 0);
    if at < parting_from(ws1, ws2, n, 0) {
        assert(same_at(ws1, ws2, at as int));
    } else if ws1[at as int] == ws2[at as int] && ws1[at as int] != 0 {
        lemma_parting_stops(ws1, ws2, n, 0);
    }
}

/// Where two strings part below `n`, they differ, or the first ends, or a
/// slice ends.
pub proof fn lemma_parting_stops(ws1: Seq<wchar_t>, ws2: Seq<wchar_t>, n: usize, from: int)
    requires
        0 <= from,
    ensures
        parting_from(ws1, ws2, n, from) < n ==> !same_at(
            ws1,
            ws2,
            parting_from(ws1, ws2, n, from),
        ) || ws1[parting_from(ws1, ws2, n, from)] == 0,
    decreases n - from,
{
    if !(from >= n || !same_at(ws1, ws2, from) || ws1[from] == 0) {
        lemma_parting_stops(ws1, ws2, n, from + 1);
    }
}

/// A place below `n` and not after the parting of two stretches of wide memory
/// that agrees in both is before the parting.
pub proof fn lemma_memory_step(ws1: Seq<wchar_t>, ws2: Seq<wchar_t>, n: usize, at: usize)
    requires
        at < n <= ws1.len(),
        n <= ws2.len(),
        at <= unlike_from(ws1, ws2, n, 0),
    ensures
        ws1[at as int] == ws2[at as int] ==> at < unlike_from(ws1, ws2, n, 0),
{
    if ws1[at as int] == ws2[at as int] && at == unlike_from(ws1, ws2, n, 0) {
        lemma_unlike_stops(ws1, ws2, n, 0);
    }
}

/// Where two stretches of wide memory part below `n`, they differ or a slice
/// ends.
pub proof fn lemma_unlike_stops(ws1: Seq<wchar_t>, ws2: Seq<wchar_t>, n: usize, from: int)
    requires
        0 <= from,
    ensures
        unlike_from(ws1, ws2, n, from) < n ==> !same_at(
            ws1,
            ws2,
            unlike_from(ws1, ws2, n, from),
        ),
    decreases n - from,
{
    if !(from >= n || !same_at(ws1, ws2, from)) {
        lemma_unlike_stops(ws1, ws2, n, from + 1);
    }
}

/// Two terminated strings can be read up to where they part, whatever the
/// count.
pub proof fn lemma_terminated_strings_are_readable(
    ws1: Seq<wchar_t>,
    ws2: Seq<wchar_t>,
    n: usize,
)
    requires
        terminated(ws1),
        terminated(ws2),
    ensures
        strings_readable(ws1, ws2, n),
{
    lemma_wcslen(ws1);
    lemma_wcslen(ws2);
    lemma_before_parting(ws1, ws2, n, 0);
    let parting: int = parting_from(ws1, ws2, n, 0);
    if parting > wcslen_spec(ws1) {
        assert(same_at(ws1, ws2, wcslen_spec(ws1)));
    }
    if parting > wcslen_spec(ws2) {
        assert(same_at(ws1, ws2, wcslen_spec(ws2)));
    }
}

/// Wide characters of one sign never differ by more than the result holds: the
/// order of two readable strings without negative wide characters fits.
pub proof fn lemma_string_order_fits(ws1: Seq<wchar_t>, ws2: Seq<wchar_t>, n: usize)
    requires
        strings_readable(ws1, ws2, n),
        forall|i: int| 0 <= i < ws1.len() ==> ws1[i] >= 0,
        forall|i: int| 0 <= i < ws2.len() ==> ws2[i] >= 0,
    ensures
        i32::MIN <= string_order(ws1, ws2, n) <= i32::MAX,
{
    lemma_before_parting(ws1, ws2, n, 0);
}

/// The order of two stretches of wide memory without negative wide characters
/// fits the result.
pub proof fn lemma_memory_order_fits(ws1: Seq<wchar_t>, ws2: Seq<wchar_t>, n: usize)
    requires
        n <= ws1.len(),
        n <= ws2.len(),
        forall|i: int| 0 <= i < ws1.len() ==> ws1[i] >= 0,
        forall|i: int| 0 <= i < ws2.len() ==> ws2[i] >= 0,
    ensures
        i32::MIN <= memory_order(ws1, ws2, n) <= i32::MAX,
{
    lemma_before_unlike(ws1, ws2, n, 0);
}

/// Tells whether the order of two strings by their first `n` wide characters
/// fits the result, so that the strings can be ordered.
pub fn string_order_fits(ws1: &[wchar_t], ws2: &[wchar_t], n: usize) -> (fits: bool)
    requires
        strings_readable(ws1@, ws2@, n),
    ensures
        fits == (i32::MIN <= string_order(ws1@, ws2@, n) <= i32::MAX),
{
    proof {
        lemma_before_parting(ws1@, ws2@, n, 0);
    }
    let mut i: usize = 0;
    while i < n
        invariant
            0 <= i <= parting_from(ws1@, ws2@, n, 0) <= n,
            strings_readable(ws1@, ws2@, n),
            forall|j: int|
                0 <= j < parting_from(ws1@, ws2@, n, 0) ==> #[trigger] same_at(ws1@, ws2@, j)
                    && ws1@[j] != 0,
        decreases n - i,
    {
        proof {
            lemma_string_step(ws1@, ws2@, n, i);
        }
        let wc1: wchar_t = ws1[i];
        let wc2: wchar_t = ws2[i];
        if wc1 != wc2 {
            proof {
                lemma_parting(ws1@, ws2@, n, 0, i);
            }
            let difference: i64 = wc1 as i64 - wc2 as i64;
            return -0x8000_0000 <= difference && difference <= 0x7FFF_FFFF;
        } else if wc1 == 0 {
            proof {
                lemma_parting(ws1@, ws2@, n, 0, i);
            }
            return true;
        }
        i += 1;
    }
    true
}

/// Tells whether the order of two stretches of wide memory of `n` wide
/// characters fits the result, so that they can be ordered.
pub fn memory_order_fits(ws1: &[wchar_t], ws2: &[wchar_t], n: usize) -> (fits: bool)
    requires
        n <= ws1@.len(),
        n <= ws2@.len(),
    ensures
        fits == (i32::MIN <= memory_order(ws1@, ws2@, n) <= i32::MAX),
{
    proof {
        lemma_before_unlike(ws1@, ws2@, n, 0);
    }
    let mut i: usize = 0;
    while i < n
        invariant
            0 <= i <= unlike_from(ws1@, ws2@, n, 0) <= n,
            n <= ws1@.len(),
            n <= ws2@.len(),
            forall|j: int|
                0 <= j < unlike_from(ws1@, ws2@, n, 0) ==> #[trigger] same_at(ws1@, ws2@, j),
        decreases n - i,
    {
        proof {
            lemma_memory_step(ws1@, ws2@, n, i);
        }
        let wc1: wchar_t = ws1[i];
        let wc2: wchar_t = ws2[i];
        if wc1 != wc2 {
            proof {
                lemma_unlike(ws1@, ws2@, n, 0, i);
            }
            let difference: i64 = wc1 as i64 - wc2 as i64;
            return -0x8000_0000 <= difference && difference <= 0x7FFF_FFFF;
        }
        i += 1;
    }
    true
}

/// Orders two strings by their first `n` wide characters: the result is zero
/// where they are the same, and else the difference of the first wide
/// characters that differ.
pub fn wcsncmp(ws1: &[wchar_t], ws2: &[wchar_t], n: usize) -> (order: c_int)
    requires
        strings_readable(ws1@, ws2@, n),
        i32::MIN <= string_order(ws1@, ws2@, n) <= i32::MAX,
    ensures
        order == string_order(ws1@, ws2@, n),
{
    proof {
        lemma_before_parting(ws1@, ws2@, n, 0);
    }
    let mut i: usize = 0;
    while i < n
        invariant
            0 <= i <= parting_from(ws1@, ws2@, n, 0) <= n,
            strings_readable(ws1@, ws2@, n),
            i32::MIN <= string_order(ws1@, ws2@, n) <= i32::MAX,
            forall|j: int|
                0 <= j < parting_from(ws1@, ws2@, n, 0) ==> #[trigger] same_at(ws1@, ws2@, j)
                    && ws1@[j] != 0,
        decreases n - i,
    {
        proof {
            lemma_string_step(ws1@, ws2@, n, i);
        }
        let wc1: wchar_t = ws1[i];
        let wc2: wchar_t = ws2[i];
        if wc1 != wc2 {
            proof {
                lemma_parting(ws1@, ws2@, n, 0, i);
            }
            return wc1 - wc2;
        } else if wc1 == 0 {
            proof {
                lemma_parting(ws1@, ws2@, n, 0, i);
            }
            return 0;
        }
        i += 1;
    }
    0
}

/// Orders two strings: the result is zero where they are the same, and else the
/// difference of the first wide characters that differ.
pub fn wcscmp(ws1: &[wchar_t], ws2: &[wchar_t]) -> (order: c_int)
    requires
        strings_readable(ws1@, ws2@, usize::MAX),
        i32::MIN <= string_order(ws1@, ws2@, usize::MAX) <= i32::MAX,
    ensures
        order == string_order(ws1@, ws2@, usize::MAX),
{
    wcsncmp(ws1, ws2, usize::MAX)
}

/// Orders two strings for collation. No locale has an order of its own: the
/// order is that of the wide characters.
pub fn wcscoll(ws1: &[wchar_t], ws2: &[wchar_t]) -> (order: c_int)
    requires
        strings_readable(ws1@, ws2@, usize::MAX),
        i32::MIN <= string_order(ws1@, ws2@, usize::MAX) <= i32::MAX,
    ensures
        order == string_order(ws1@, ws2@, usize::MAX),
{
    wcscmp(ws1, ws2)
}

/// Orders two stretches of wide memory of `n` wide characters: the result is
/// zero where they are the same, and else the difference of the first wide
/// characters that differ.
pub fn wmemcmp(ws1: &[wchar_t], ws2: &[wchar_t], n: usize) -> (order: c_int)
    requires
        n <= ws1@.len(),
        n <= ws2@.len(),
        i32::MIN <= memory_order(ws1@, ws2@, n) <= i32::MAX,
    ensures
        order == memory_order(ws1@, ws2@, n),
{
    proof {
        lemma_before_unlike(ws1@, ws2@, n, 0);
    }
    let mut i: usize = 0;
    while i < n
        invariant
            0 <= i <= unlike_from(ws1@, ws2@, n, 0) <= n,
            n <= ws1@.len(),
            n <= ws2@.len(),
            i32::MIN <= memory_order(ws1@, ws2@, n) <= i32::MAX,
            forall|j: int|
                0 <= j < unlike_from(ws1@, ws2@, n, 0) ==> #[trigger] same_at(ws1@, ws2@, j),
        decreases n - i,
    {
        proof {
            lemma_memory_step(ws1@, ws2@, n, i);
        }
        let wc1: wchar_t = ws1[i];
        let wc2: wchar_t = ws2[i];
        if wc1 != wc2 {
            proof {
                lemma_unlike(ws1@, ws2@, n, 0, i);
            }
            return wc1 - wc2;
        }
        i += 1;
    }
    0
}

} // verus!
