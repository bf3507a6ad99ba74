//! Character-level helpers: whitespace, trimming, splitting and decimal
//! formatting, stated as spec functions over `Seq<char>`.

use vstd::prelude::*;
use vstd::string::*;

verus! {

/// Unicode `White_Space`, the set that `char::is_whitespace` and `str::trim` use.
pub open spec fn is_ws(c: char) -> bool {
    let u = c as u32;
    (0x09 <= u && u <= 0x0d) || u == 0x20 || u == 0x85 || u == 0xa0 || u == 0x1680 || (0x2000
        <= u && u <= 0x200a) || u == 0x2028 || u == 0x2029 || u == 0x202f || u == 0x205f || u
        == 0x3000
}

pub open spec fn trim_start(s: Seq<char>) -> Seq<char>
    decreases s.len(),
{
    if s.len() > 0 && is_ws(s[0]) {
        trim_start(s.drop_first())
    } else {
        s
    }
}

pub open spec fn trim_end(s: Seq<char>) -> Seq<char>
    decreases s.len(),
{
    if s.len() > 0 && is_ws(s.last()) {
        trim_end(s.drop_last())
    } else {
        s
    }
}

/// `s` without its leading and trailing whitespace.
pub open spec fn trim_ws(s: Seq<char>) -> Seq<char> {
    trim_end(trim_start(s))
}

/// Index of the first `c` in `s`, or -1.
pub open spec fn first_index(s: Seq<char>, c: char) -> int
    decreases s.len(),
{
    if s.len() == 0 {
        -1
    } else if s[0] == c {
        0
    } else {
        let r = first_index(s.drop_first(), c);
        if r < 0 {
            -1
        } else {
            r + 1
        }
    }
}

/// The pieces of `s` between occurrences of `c`; always at least one piece.
pub open spec fn split_on(s: Seq<char>, c: char) -> Seq<Seq<char>>
    decreases s.len(),
{
    if s.len() == 0 {
        seq![Seq::empty()]
    } else {
        let rest = split_on(s.drop_first(), c);
        if s[0] == c {
            seq![Seq::empty()] + rest
        } else {
            rest.update(0, seq![s[0]] + rest[0])
        }
    }
}

/// `s` cut at its first `c`, which belongs to neither part.
pub open spec fn cut_at(s: Seq<char>, c: char) -> Option<(Seq<char>, Seq<char>)> {
    let i = first_index(s, c);
    if i < 0 {
        None
    } else {
        Some((s.take(i), s.skip(i + 1)))
    }
}

pub open spec fn strip_cr(l: Seq<char>) -> Seq<char> {
    if l.len() > 0 && l.last() == '\r' {
        l.drop_last()
    } else {
        l
    }
}

/// The lines of `s`: ended by `\n` or `\r\n`, the last ending optional.
pub open spec fn lines_of(s: Seq<char>) -> Seq<Seq<char>> {
    let parts = split_on(s, '\n');
    let n = if parts.last().len() == 0 {
        parts.len() - 1
    } else {
        parts.len() as int
    };
    Seq::new(n as nat, |i: int| if i + 1 < parts.len() { strip_cr(parts[i]) } else { parts[i] })
}

pub open spec fn digit(d: nat) -> char {
    if d == 0 {
        '0'
    } else if d == 1 {
        '1'
    } else if d == 2 {
        '2'
    } else if d == 3 {
        '3'
    } else if d == 4 {
        '4'
    } else if d == 5 {
        '5'
    } else if d == 6 {
        '6'
    } else if d == 7 {
        '7'
    } else if d == 8 {
        '8'
    } else {
        '9'
    }
}

/// Decimal digits of `n`, without leading zeros.
pub open spec fn decimal(n: nat) -> Seq<char>
    decreases n,
{
    if n < 10 {
        seq![digit(n)]
    } else {
        decimal(n / 10).push(digit(n % 10))
    }
}

/// `s` written `k` times.
pub open spec fn repeat(s: Seq<char>, k: nat) -> Seq<char>
    decreases k,
{
    if k == 0 {
        Seq::empty()
    } else {
        repeat(s, (k - 1) as nat) + s
    }
}

/// Whether two strings hold the same characters.
pub fn str_eq(a: &str, b: &str) -> (r: bool)
    ensures
        r == (a@ == b@),
{
    let n = a.unicode_len();
    if n != b.unicode_len() {
        return false;
    }
    let mut i: usize = 0;
    while i < n
        invariant
            n == a@.len(),
            n == b@.len(),
            i <= n,
            forall|j: int| 0 <= j < i ==> a@[j] == b@[j],
        decreases n - i,
    {
        if a.get_char(i) != b.get_char(i) {
            return false;
        }
        i += 1;
    }
    assert(a@ =~= b@);
    true
}

/// Relies on `str::trim`: removes leading and trailing `White_Space` characters.
#[verifier::external_body]
pub(crate) fn trim_str(s: &str) -> (r: String)
    ensures
        r@ == trim_ws(s@),
{
    s.trim().to_string()
}

/// Relies on `str::lines`: lines split at `\n` or `\r\n`, terminators removed,
/// the last terminator optional.
#[verifier::external_body]
pub(crate) fn split_lines(s: &str) -> (r: Vec<String>)
    ensures
        r@.len() == lines_of(s@).len(),
        forall|i: int| 0 <= i < r@.len() ==> #[trigger] r@[i]@ == lines_of(s@)[i],
{
    s.lines().map(|l| l.to_string()).collect()
}

/// Relies on `str::split` with a `char` pattern: the pieces between the separators.
#[verifier::external_body]
pub(crate) fn split_char(s: &str, c: char) -> (r: Vec<String>)
    ensures
        r@.len() == split_on(s@, c).len(),
        forall|i: int| 0 <= i < r@.len() ==> #[trigger] r@[i]@ == split_on(s@, c)[i],
{
    s.split(c).map(|p| p.to_string()).collect()
}

/// The views of an optional pair of strings.
pub open spec fn pair_views(r: Option<(String, String)>) -> Option<(Seq<char>, Seq<char>)> {
    match r {
        Some((a, b)) => Some((a@, b@)),
        None => None,
    }
}

/// Relies on `str::split_once` with a `char` pattern: cut at the first occurrence.
#[verifier::external_body]
pub(crate) fn split_once_char(s: &str, c: char) -> (r: Option<(String, String)>)
    ensures
        pair_views(r) == cut_at(s@, c),
{
    s.split_once(c).map(|(a, b)| (a.to_string(), b.to_string()))
}

/// Relies on `str::strip_prefix`: the rest of `s` when it starts with `p`.
#[verifier::external_body]
pub(crate) fn strip_prefix_str(s: &str, p: &str) -> (r: Option<String>)
    ensures
        p@.is_prefix_of(s@) ==> r is Some && r->0@ == s@.skip(p@.len() as int),
        !p@.is_prefix_of(s@) ==> r is None,
{
    s.strip_prefix(p).map(|t| t.to_string())
}

/// Relies on `usize::to_string`: the decimal digits of `n`.
#[verifier::external_body]
pub(crate) fn usize_to_string(n: usize) -> (r: String)
    ensures
        r@ == decimal(n as nat),
{
    n.to_string()
}

} // verus!
