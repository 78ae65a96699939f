use vstd::prelude::*;

verus! {

/// `s` ends with `suffix`.
pub open spec fn has_suffix(s: Seq<char>, suffix: Seq<char>) -> bool {
    suffix.len() <= s.len() && s.subrange(s.len() - suffix.len(), s.len() as int) == suffix
}

/// The decimal digit character of `d < 10`.
pub open spec fn digit_char(d: nat) -> char {
    ((d + 48) as u8) as char
}

/// The decimal rendering of `n`, most significant digit first, without leading zeros.
pub open spec fn decimal(n: nat) -> Seq<char>
    decreases n,
{
    if n < 10 {
        seq![digit_char(n)]
    } else {
        decimal(n / 10) + seq![digit_char(n % 10)]
    }
}

/// What `str::split_whitespace` yields for `s`, as character sequences.
pub uninterp spec fn whitespace_tokens(s: Seq<char>) -> Seq<Seq<char>>;

/// The strings of `v`, as character sequences.
pub open spec fn strings_view(v: Seq<String>) -> Seq<Seq<char>> {
    v.map_values(|t: String| t@)
}

/// Whether `s` ends with `suffix`, compared character by character.
pub fn ends_with(s: &str, suffix: &str) -> (r: bool)
    ensures
        r == has_suffix(s@, suffix@),
{
    let n = s.unicode_len();
    let m = suffix.unicode_len();
    if m > n {
        return false;
    }
    let off = n - m;
    let mut i: usize = 0;
    while i < m
        invariant
            n == s@.len(),
            m == suffix@.len(),
            off + m == n,
            0 <= i <= m,
            forall|j: int| 0 <= j < i ==> s@[off + j] == suffix@[j],
        decreases m - i,
    {
        if s.get_char(off + i) != suffix.get_char(i) {
            assert(s@.subrange(off as int, n as int)[i as int] != suffix@[i as int]);
            return false;
        }
        i = i + 1;
    }
    assert(s@.subrange(off as int, n as int) =~= suffix@);
    true
}

/// Relies on `u64`'s `ToString`: the decimal digits of the value, without sign or padding.
#[verifier::external_body]
pub(crate) fn decimal_string(n: u64) -> (r: String)
    ensures
        r@ == decimal(n as nat),
{
    n.to_string()
}

/// The parts of `s` before and after its first colon, or `None` where it has no colon.
pub fn split_at_colon(s: &str) -> (r: Option<(String, String)>)
    ensures
        match r {
            None => !s@.contains(':'),
            Some(parts) => s@ == parts.0@ + seq![':'] + parts.1@ && !parts.0@.contains(':'),
        },
{
    let n = s.unicode_len();
    let mut i: usize = 0;
    while i < n
        invariant
            n == s@.len(),
            0 <= i <= n,
            forall|j: int| 0 <= j < i ==> s@[j] != ':',
        decreases n - i,
    {
        if s.get_char(i) == ':' {
            let name = s.substring_char(0, i).to_string();
            let value = s.substring_char(i + 1, n).to_string();
            assert(s@ =~= name@ + seq![':'] + value@);
            assert(!name@.contains(':')) by {
                assert forall|j: int| 0 <= j < name@.len() implies name@[j] != ':' by {
                    assert(name@[j] == s@[j]);
                }
            }
            return Some((name, value));
        }
        i = i + 1;
    }
    None
}

/// Relies on `str::split_whitespace`: the non-empty runs of non-whitespace characters, in order.
#[verifier::external_body]
pub(crate) fn split_whitespace(s: &str) -> (r: Vec<String>)
    ensures
        strings_view(r@) == whitespace_tokens(s@),
{
    s.split_whitespace().map(|t| t.to_string()).collect()
}

} // verus!
