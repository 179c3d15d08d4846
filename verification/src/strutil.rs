//! String helpers shared by the string, system and version predicates:
//! exact and case-insensitive equality, and the case-folding they rest on.

use vstd::prelude::*;

verus! {

/// What `str::to_lowercase` returns for a given sequence of characters.
/// The full Unicode lowering table is not written out here; the name only
/// fixes that the result is a function of the input characters alone.
pub uninterp spec fn lowercase_of(s: Seq<char>) -> Seq<char>;

/// Relies on `str::eq` (the `PartialEq` impl for `str`): two string slices
/// are equal exactly when their character sequences are.
#[verifier::external_body]
pub fn str_eq(a: &str, b: &str) -> (r: bool)
    ensures
        r == (a@ == b@),
{
    a == b
}

/// Relies on `str::to_lowercase`: the result depends on the characters of
/// the input alone, and an empty input stays empty.
#[verifier::external_body]
fn to_lowercase(s: &str) -> (r: String)
    ensures
        r@ == lowercase_of(s@),
        s@.len() == 0 ==> r@.len() == 0,
{
    s.to_lowercase()
}

/// The character code a single character folds to under ASCII-only case
/// folding: upper-case ASCII letters map to their lower-case form, every
/// other character is left as it is.
pub open spec fn ascii_lower_code(c: char) -> u32 {
    if 'A' <= c && c <= 'Z' {
        (c as u32 + 32) as u32
    } else {
        c as u32
    }
}

/// ASCII-only case-insensitive equality of two character sequences.
pub open spec fn ascii_eq_ci(a: Seq<char>, b: Seq<char>) -> bool {
    a.len() == b.len() && forall|i: int|
        0 <= i < a.len() ==> ascii_lower_code(a[i]) == ascii_lower_code(b[i])
}

/// Case-insensitive equality as the string predicates use it: the operands
/// agree under ASCII folding, or they agree after full Unicode lowering.
pub open spec fn eq_ci_spec(a: Seq<char>, b: Seq<char>) -> bool {
    ascii_eq_ci(a, b) || lowercase_of(a) == lowercase_of(b)
}

fn ascii_lower_code_exec(c: char) -> (r: u32)
    ensures
        r == ascii_lower_code(c),
{
    let u = c as u32;
    if 65 <= u && u <= 90 {
        u + 32
    } else {
        u
    }
}

pub(crate) fn eq_ignore_ascii_case(a: &str, b: &str) -> (r: bool)
    ensures
        r == ascii_eq_ci(a@, b@),
{
    let alen = a.unicode_len();
    let blen = b.unicode_len();
    if alen != blen {
        return false;
    }
    let mut i: usize = 0;
    while i < alen
        invariant
            alen == a@.len(),
            blen == b@.len(),
            alen == blen,
            i <= alen,
            forall|j: int| 0 <= j < i ==> ascii_lower_code(a@[j]) == ascii_lower_code(b@[j]),
        decreases alen - i,
    {
        let ca = a.get_char(i);
        let cb = b.get_char(i);
        if ascii_lower_code_exec(ca) != ascii_lower_code_exec(cb) {
            return false;
        }
        i += 1;
    }
    true
}

/// Case-insensitive string equality: true when the operands agree under
/// ASCII folding or after full Unicode lowering.
pub fn eq_ci(a: &str, b: &str) -> (r: bool)
    ensures
        r == eq_ci_spec(a@, b@),
{
    if eq_ignore_ascii_case(a, b) {
        return true;
    }
    let la = to_lowercase(a);
    let lb = to_lowercase(b);
    str_eq(la.as_str(), lb.as_str())
}

/// `p` is a prefix of `s`.
pub open spec fn has_prefix(s: Seq<char>, p: Seq<char>) -> bool {
    p.len() <= s.len() && s.take(p.len() as int) == p
}

/// `p` is a suffix of `s`.
pub open spec fn has_suffix(s: Seq<char>, p: Seq<char>) -> bool {
    p.len() <= s.len() && s.skip(s.len() - p.len()) == p
}

/// `n` occurs in `s` as a contiguous run of characters.
pub open spec fn has_substring(s: Seq<char>, n: Seq<char>) -> bool {
    exists|i: int|
        0 <= i && i + n.len() <= s.len() && #[trigger] s.subrange(i, i + n.len()) == n
}

/// Whether `s`, from position `at` on, continues with exactly the
/// characters of `n`.
fn matches_at(s: &str, s_len: usize, at: usize, n: &str, n_len: usize) -> (r: bool)
    requires
        s_len == s@.len(),
        n_len == n@.len(),
        at + n_len <= s_len,
    ensures
        r == (s@.subrange(at as int, at + n@.len()) == n@),
{
    let mut j: usize = 0;
    while j < n_len
        invariant
            s_len == s@.len(),
            n_len == n@.len(),
            at + n_len <= s_len,
            j <= n_len,
            forall|k: int| 0 <= k < j ==> s@[at + k] == n@[k],
        decreases n_len - j,
    {
        if s.get_char(at + j) != n.get_char(j) {
            proof {
                let sub = s@.subrange(at as int, at + n@.len());
                assert(sub[j as int] == s@[at + j]);
            }
            return false;
        }
        j += 1;
    }
    proof {
        assert(s@.subrange(at as int, at + n@.len()) =~= n@);
    }
    true
}

/// Exact prefix test.
pub fn starts_with(s: &str, p: &str) -> (r: bool)
    ensures
        r == has_prefix(s@, p@),
{
    let s_len = s.unicode_len();
    let p_len = p.unicode_len();
    if p_len > s_len {
        return false;
    }
    let r = matches_at(s, s_len, 0, p, p_len);
    proof {
        assert(s@.subrange(0, p@.len() as int) =~= s@.take(p@.len() as int));
    }
    r
}

/// Exact suffix test.
pub fn ends_with(s: &str, p: &str) -> (r: bool)
    ensures
        r == has_suffix(s@, p@),
{
    let s_len = s.unicode_len();
    let p_len = p.unicode_len();
    if p_len > s_len {
        return false;
    }
    let r = matches_at(s, s_len, s_len - p_len, p, p_len);
    proof {
        assert(s@.subrange(s@.len() - p@.len(), s@.len() - p@.len() + p@.len()) =~= s@.skip(
            s@.len() - p@.len(),
        ));
    }
    r
}

/// Exact substring test.
pub fn contains(s: &str, n: &str) -> (r: bool)
    ensures
        r == has_substring(s@, n@),
{
    let s_len = s.unicode_len();
    let n_len = n.unicode_len();
    if n_len > s_len {
        return false;
    }
    let last = s_len - n_len;
    let mut i: usize = 0;
    loop
        invariant
            s_len == s@.len(),
            n_len == n@.len(),
            n_len <= s_len,
            last == s_len - n_len,
            i <= last,
            forall|k: int|
                0 <= k < i ==> #[trigger] s@.subrange(k, k + n@.len()) != n@,
        decreases last - i,
    {
        if matches_at(s, s_len, i, n, n_len) {
            return true;
        }
        if i == last {
            return false;
        }
        i += 1;
    }
}

/// Case-insensitive substring test, by full Unicode lowering of both
/// operands.
pub fn contains_ci(s: &str, n: &str) -> (r: bool)
    ensures
        r == has_substring(lowercase_of(s@), lowercase_of(n@)),
{
    let ls = to_lowercase(s);
    let ln = to_lowercase(n);
    contains(ls.as_str(), ln.as_str())
}

/// Case-insensitive prefix test, by full Unicode lowering of both operands.
pub fn starts_with_ci(s: &str, p: &str) -> (r: bool)
    ensures
        r == has_prefix(lowercase_of(s@), lowercase_of(p@)),
{
    let ls = to_lowercase(s);
    let lp = to_lowercase(p);
    starts_with(ls.as_str(), lp.as_str())
}

/// Case-insensitive suffix test, by full Unicode lowering of both operands.
pub fn ends_with_ci(s: &str, p: &str) -> (r: bool)
    ensures
        r == has_suffix(lowercase_of(s@), lowercase_of(p@)),
{
    let ls = to_lowercase(s);
    let lp = to_lowercase(p);
    ends_with(ls.as_str(), lp.as_str())
}

/// A value that a shell caller may misread as a flag or an operator: the
/// empty string, anything starting with a hyphen, or a bare shell
/// operator token.
pub open spec fn needs_quote_spec(v: Seq<char>) -> bool {
    v.len() == 0 || v[0] == '-' || v == "!"@ || v == "("@ || v == ")"@
}

/// Flags a value that may need quoting; yields the diagnostic line to
/// print when it does.
pub fn quote_advice(value: &str) -> (r: Option<String>)
    ensures
        r is Some <==> needs_quote_spec(value@),
        r is Some ==> r.unwrap()@ == "Value '"@ + value@
            + "' may need quoting. Consider using \"$VAR\" in your shell."@,
{
    let len = value.unicode_len();
    let suspicious = len == 0 || value.get_char(0) == '-' || str_eq(value, "!") || str_eq(
        value,
        "(",
    ) || str_eq(value, ")");
    if suspicious {
        let mut msg = String::from_str("Value '");
        msg.append(value);
        msg.append("' may need quoting. Consider using \"$VAR\" in your shell.");
        proof {
            assert(msg@ == "Value '"@ + value@
                + "' may need quoting. Consider using \"$VAR\" in your shell."@);
        }
        Some(msg)
    } else {
        None
    }
}

/// Every character is in the ASCII range.
pub open spec fn all_ascii(s: Seq<char>) -> bool {
    forall|i: int| 0 <= i < s.len() ==> (s[i] as u32) < 128
}

/// Whether the string consists of ASCII characters only.
pub fn ascii_only(s: &str) -> (r: bool)
    ensures
        r == all_ascii(s@),
{
    let len = s.unicode_len();
    let mut i: usize = 0;
    while i < len
        invariant
            len == s@.len(),
            i <= len,
            forall|j: int| 0 <= j < i ==> (s@[j] as u32) < 128,
        decreases len - i,
    {
        if s.get_char(i) as u32 >= 128 {
            return false;
        }
        i += 1;
    }
    true
}

} // verus!
