//! Text and byte helpers that the storage layer shares.

use vstd::prelude::*;
use vstd::string::*;

verus! {

/// `needle` occurs in `hay` as a contiguous run of characters.
pub open spec fn is_infix(needle: Seq<char>, hay: Seq<char>) -> bool {
    exists|i: int|
        0 <= i && i + needle.len() <= hay.len() && #[trigger] hay.subrange(
            i,
            i + needle.len(),
        ) == needle
}

/// What `str::to_lowercase` makes of a text. It follows the Unicode case
/// tables and depends on the text alone.
pub uninterp spec fn lowercase_of(s: Seq<char>) -> Seq<char>;

/// What `str::trim` leaves of a text: the text without the white space, as
/// Unicode defines it, at its two ends.
pub uninterp spec fn trimmed_of(s: Seq<char>) -> Seq<char>;

/// A text is blank when it is empty or nothing is left of it after
/// trimming.
pub open spec fn is_blank(s: Seq<char>) -> bool {
    s.len() == 0 || trimmed_of(s).len() == 0
}

/// The empty text is blank.
pub proof fn lemma_empty_is_blank()
    ensures
        is_blank(Seq::empty()),
        is_blank(""@),
{
    reveal_strlit("");
}

/// `a` matches `b` without regard to case: the lower-case form of `b`
/// occurs in the lower-case form of `a`.
pub open spec fn mentions(a: Seq<char>, b: Seq<char>) -> bool {
    is_infix(lowercase_of(b), lowercase_of(a))
}

/// `str::eq`: whether two texts hold the same characters.
#[verifier::external_body]
pub(crate) fn same_text(a: &str, b: &str) -> (r: bool)
    ensures
        r == (a@ == b@),
{
    a == b
}

/// `str::contains` with a string pattern: whether the pattern matches a
/// sub-slice of the text.
#[verifier::external_body]
pub(crate) fn contains_text(hay: &str, needle: &str) -> (r: bool)
    ensures
        r == is_infix(needle@, hay@),
{
    hay.contains(needle)
}

/// `str::starts_with` with a string pattern: whether the pattern matches a
/// prefix of the text.
#[verifier::external_body]
pub(crate) fn starts_with_text(s: &str, prefix: &str) -> (r: bool)
    ensures
        r == prefix@.is_prefix_of(s@),
{
    s.starts_with(prefix)
}

/// `str::to_lowercase`: the lower-case equivalent of the text.
#[verifier::external_body]
pub(crate) fn lowercase(s: &str) -> (r: String)
    ensures
        r@ == lowercase_of(s@),
{
    s.to_lowercase()
}

/// `str::trim`: the text with leading and trailing white space removed,
/// which is a part of the text.
#[verifier::external_body]
pub(crate) fn trimmed<'a>(s: &'a str) -> (r: &'a str)
    ensures
        r@ == trimmed_of(s@),
        is_infix(r@, s@),
{
    s.trim()
}

/// Whether a text is blank.
pub fn blank(s: &str) -> (r: bool)
    ensures
        r == is_blank(s@),
{
    trimmed(s).is_empty()
}

/// Whether `text` mentions `query`, without regard to case.
pub fn mentions_text(text: &str, query: &str) -> (r: bool)
    ensures
        r == mentions(text@, query@),
{
    let t = lowercase(text);
    let q = lowercase(query);
    contains_text(t.as_str(), q.as_str())
}

/// The two texts joined.
pub fn join(a: &str, b: &str) -> (r: String)
    ensures
        r@ == a@ + b@,
{
    let mut s = a.to_string();
    s.append(b);
    s
}

/// Whether two byte strings are equal.
pub fn same_bytes(a: &[u8], b: &[u8]) -> (r: bool)
    ensures
        r == (a@ == b@),
{
    if a.len() != b.len() {
        return false;
    }
    let mut i: usize = 0;
    while i < a.len()
        invariant
            i <= a.len(),
            a.len() == b.len(),
            forall|k: int| 0 <= k < i ==> a@[k] == b@[k],
        decreases a.len() - i,
    {
        if a[i] != b[i] {
            return false;
        }
        i += 1;
    }
    assert(a@ =~= b@);
    true
}

/// Whether `bytes` begins with `prefix`.
pub fn bytes_start_with(bytes: &[u8], prefix: &[u8]) -> (r: bool)
    ensures
        r == prefix@.is_prefix_of(bytes@),
{
    if prefix.len() > bytes.len() {
        return false;
    }
    let mut i: usize = 0;
    while i < prefix.len()
        invariant
            i <= prefix.len(),
            prefix.len() <= bytes.len(),
            forall|k: int| 0 <= k < i ==> prefix@[k] == bytes@[k],
        decreases prefix.len() - i,
    {
        if prefix[i] != bytes[i] {
            assert(prefix@[i as int] != bytes@.subrange(0, prefix@.len() as int)[i as int]);
            return false;
        }
        i += 1;
    }
    assert(prefix@ =~= bytes@.subrange(0, prefix@.len() as int));
    true
}

/// The bytes of `a` followed by the bytes of `b`.
pub fn joined_bytes(a: &[u8], b: &[u8]) -> (r: Vec<u8>)
    ensures
        r@ == a@ + b@,
{
    let mut out: Vec<u8> = Vec::new();
    let mut i: usize = 0;
    while i < a.len()
        invariant
            i <= a.len(),
            out@ == a@.subrange(0, i as int),
        decreases a.len() - i,
    {
        out.push(a[i]);
        assert(out@ =~= a@.subrange(0, i + 1));
        i += 1;
    }
    assert(out@ =~= a@);
    let mut j: usize = 0;
    while j < b.len()
        invariant
            j <= b.len(),
            out@ == a@ + b@.subrange(0, j as int),
        decreases b.len() - j,
    {
        out.push(b[j]);
        assert(out@ =~= a@ + b@.subrange(0, j + 1));
        j += 1;
    }
    assert(out@ =~= a@ + b@);
    out
}

/// The index of the first occurrence of a value in a list, or the length of
/// the list if it does not occur.
pub open spec fn first_index<T>(items: Seq<T>, x: T) -> int
    decreases items.len(),
{
    if items.len() == 0 || items[0] == x {
        0
    } else {
        1 + first_index(items.drop_first(), x)
    }
}

/// A first index is within the list or just behind it; the value stands
/// there and nowhere before.
pub proof fn lemma_first_index<T>(items: Seq<T>, x: T)
    ensures
        0 <= first_index(items, x) <= items.len(),
        first_index(items, x) < items.len() ==> items[first_index(items, x)] == x,
        forall|k: int| 0 <= k < first_index(items, x) ==> #[trigger] items[k] != x,
        first_index(items, x) < items.len() <==> items.contains(x),
    decreases items.len(),
{
    if items.len() == 0 || items[0] == x {
        if items.len() > 0 {
            assert(items[0] == x);
        }
    } else {
        let rest = items.drop_first();
        lemma_first_index(rest, x);
        let p = first_index(rest, x);
        assert forall|k: int| 0 <= k < first_index(items, x) implies #[trigger] items[k] != x by {
            if k > 0 {
                assert(items[k] == rest[k - 1]);
            }
        }
        if p < rest.len() {
            assert(items[p + 1] == rest[p]);
        }
        if items.contains(x) {
            let w = choose|w: int| 0 <= w < items.len() && items[w] == x;
            assert(rest[w - 1] == x);
        }
    }
}

/// Where the value stands at index `i` and nowhere before, `i` is its first
/// index.
pub proof fn lemma_first_index_is<T>(items: Seq<T>, x: T, i: int)
    requires
        0 <= i <= items.len(),
        i < items.len() ==> items[i] == x,
        forall|k: int| 0 <= k < i ==> #[trigger] items[k] != x,
    ensures
        first_index(items, x) == i,
{
    lemma_first_index(items, x);
    let p = first_index(items, x);
    if p < i {
        assert(items[p] != x);
    }
}

/// The index of the first occurrence of a text in a list, or the length of
/// the list if it does not occur.
pub fn find_text(items: &Vec<String>, x: &str) -> (r: usize)
    ensures
        r == first_index(items.deep_view(), x@),
        r <= items.len(),
        r < items.len() <==> items.deep_view().contains(x@),
        r < items.len() ==> items.deep_view()[r as int] == x@,
{
    let ghost views = items.deep_view();
    let mut i: usize = 0;
    while i < items.len()
        invariant
            i <= items.len(),
            views == items.deep_view(),
            forall|k: int| 0 <= k < i ==> #[trigger] views[k] != x@,
        decreases items.len() - i,
    {
        if same_text(items[i].as_str(), x) {
            proof {
                lemma_first_index_is(views, x@, i as int);
                lemma_first_index(views, x@);
            }
            return i;
        }
        i += 1;
    }
    proof {
        lemma_first_index_is(views, x@, i as int);
        lemma_first_index(views, x@);
    }
    i
}

/// A number in decimal: its digits without a sign, the most significant
/// first, and "0" for zero.
pub open spec fn decimal_of(n: int) -> Seq<char>
    recommends
        0 <= n,
    decreases n,
{
    if n < 10 {
        hex_digit(n as u8)
    } else {
        decimal_of(n / 10) + hex_digit((n % 10) as u8)
    }
}

/// A number in decimal.
pub fn decimal(n: u64) -> (r: String)
    ensures
        r@ == decimal_of(n as int),
    decreases n,
{
    if n < 10 {
        digit(n as u8).to_string()
    } else {
        let mut s = decimal(n / 10);
        s.append(digit((n % 10) as u8));
        s
    }
}

/// The two hexadecimal digits of a byte.
pub open spec fn hex_pair(b: u8) -> Seq<char> {
    hex_digit((b / 16) as u8) + hex_digit((b % 16) as u8)
}

/// The digit of a number below sixteen, in lower case: for a number below
/// ten its decimal digit.
pub open spec fn hex_digit(n: u8) -> Seq<char> {
    if n == 0 {
        "0"@
    } else if n == 1 {
        "1"@
    } else if n == 2 {
        "2"@
    } else if n == 3 {
        "3"@
    } else if n == 4 {
        "4"@
    } else if n == 5 {
        "5"@
    } else if n == 6 {
        "6"@
    } else if n == 7 {
        "7"@
    } else if n == 8 {
        "8"@
    } else if n == 9 {
        "9"@
    } else if n == 10 {
        "a"@
    } else if n == 11 {
        "b"@
    } else if n == 12 {
        "c"@
    } else if n == 13 {
        "d"@
    } else if n == 14 {
        "e"@
    } else {
        "f"@
    }
}

/// Bytes in hexadecimal, two lower-case digits for each byte.
pub open spec fn hex_of(bytes: Seq<u8>) -> Seq<char>
    decreases bytes.len(),
{
    if bytes.len() == 0 {
        Seq::empty()
    } else {
        hex_of(bytes.drop_last()) + hex_pair(bytes.last())
    }
}

/// The hexadecimal digit of a number below sixteen.
fn digit(n: u8) -> (r: &'static str)
    ensures
        r@ == hex_digit(n),
{
    if n == 0 {
        "0"
    } else if n == 1 {
        "1"
    } else if n == 2 {
        "2"
    } else if n == 3 {
        "3"
    } else if n == 4 {
        "4"
    } else if n == 5 {
        "5"
    } else if n == 6 {
        "6"
    } else if n == 7 {
        "7"
    } else if n == 8 {
        "8"
    } else if n == 9 {
        "9"
    } else if n == 10 {
        "a"
    } else if n == 11 {
        "b"
    } else if n == 12 {
        "c"
    } else if n == 13 {
        "d"
    } else if n == 14 {
        "e"
    } else {
        "f"
    }
}

/// Bytes in hexadecimal.
pub fn hex(bytes: &[u8]) -> (r: String)
    ensures
        r@ == hex_of(bytes@),
{
    let mut out = String::new();
    let mut i: usize = 0;
    proof {
        assert(bytes@.take(0) =~= Seq::<u8>::empty());
    }
    while i < bytes.len()
        invariant
            i <= bytes.len(),
            out@ == hex_of(bytes@.take(i as int)),
        decreases bytes.len() - i,
    {
        let b = bytes[i];
        proof {
            let next = bytes@.take(i + 1);
            assert(next.drop_last() =~= bytes@.take(i as int));
            assert(next.last() == b);
        }
        out.append(digit(b / 16));
        out.append(digit(b % 16));
        proof {
            assert(out@ =~= hex_of(bytes@.take(i as int)) + hex_pair(b));
        }
        i += 1;
    }
    proof {
        assert(bytes@.take(bytes@.len() as int) =~= bytes@);
    }
    out
}

/// Whether two lists hold the same texts in the same order.
pub fn same_texts(a: &Vec<String>, b: &Vec<String>) -> (r: bool)
    ensures
        r == (a.deep_view() == b.deep_view()),
{
    if a.len() != b.len() {
        assert(a.deep_view().len() != b.deep_view().len());
        return false;
    }
    let mut i: usize = 0;
    while i < a.len()
        invariant
            i <= a.len(),
            a.len() == b.len(),
            forall|k: int| 0 <= k < i ==> a[k]@ == b[k]@,
        decreases a.len() - i,
    {
        if a[i] != b[i] {
            assert(a.deep_view()[i as int] != b.deep_view()[i as int]);
            return false;
        }
        i += 1;
    }
    assert(a.deep_view() =~= b.deep_view());
    true
}

} // verus!
