//! Semantic-version predicates.  The grammar is delegated to the `semver`
//! crate behind one trusted parser wrapper; the precedence comparison is
//! implemented and verified here, over plain numeric fields and the
//! pre-release text.  Build metadata is dropped on parsing: the precedence
//! rules ignore it.

use crate::CmpOp;
use crate::classify::{all_digits, dec_val, is_digit, lemma_dec_val_lower, lemma_dec_val_same_len, lemma_dec_val_upper, lemma_pow10_mono, pow10};
use vstd::prelude::*;

verus! {

/// A parsed semantic version: the three numeric fields and the raw
/// pre-release text (empty for a release).
pub struct SemVer {
    pub major: u64,
    pub minor: u64,
    pub patch: u64,
    pub pre: String,
}

/// A three-way comparison result.
#[derive(Clone, Copy, PartialEq, Eq, Structural, Debug)]
pub enum Rel {
    Lt,
    Eq,
    Gt,
}

/// What `semver::Version::parse` returns for a given sequence of
/// characters: the parsed version, or nothing when the input is not a
/// semantic version.  The grammar itself is not written out here; the name
/// only fixes that the result is a function of the input alone.
pub uninterp spec fn version_of(s: Seq<char>) -> Option<SemVer>;

/// A character allowed in a pre-release identifier.
pub open spec fn is_ident_char(c: char) -> bool {
    is_digit(c) || (65 <= c as u32 && c as u32 <= 90) || (97 <= c as u32 && c as u32 <= 122)
        || c == '-'
}

/// A well-formed pre-release identifier: non-empty, over letters, digits
/// and hyphens, and without a leading zero when fully numeric.
pub open spec fn ident_wf(id: Seq<char>) -> bool {
    id.len() > 0 && (forall|i: int| 0 <= i < id.len() ==> is_ident_char(#[trigger] id[i]))
        && (all_digits(id) ==> (id[0] != '0' || id.len() == 1))
}

/// The position of the first dot, or the length if there is none.
pub open spec fn dot_run(s: Seq<char>) -> int
    decreases s.len(),
{
    if s.len() == 0 || s[0] == '.' {
        0
    } else {
        1 + dot_run(s.skip(1))
    }
}

/// The dot-separated pieces of a sequence.
pub open spec fn split_dots(s: Seq<char>) -> Seq<Seq<char>>
    decreases s.len(),
{
    let a = dot_run(s);
    if a < 0 || a >= s.len() {
        seq![s]
    } else {
        seq![s.take(a)] + split_dots(s.skip(a + 1))
    }
}

/// Well-formed pre-release text: empty, or dot-separated well-formed
/// identifiers.
pub open spec fn pre_text_wf(p: Seq<char>) -> bool {
    p.len() == 0 || forall|k: int|
        0 <= k < split_dots(p).len() ==> ident_wf(#[trigger] split_dots(p)[k])
}

proof fn lemma_dot_run_bounds(s: Seq<char>)
    ensures
        0 <= dot_run(s) <= s.len(),
        forall|j: int| 0 <= j < dot_run(s) ==> s[j] != '.',
        dot_run(s) < s.len() ==> s[dot_run(s)] == '.',
    decreases s.len(),
{
    if s.len() == 0 || s[0] == '.' {
    } else {
        lemma_dot_run_bounds(s.skip(1));
        assert(forall|j: int| 0 <= j < dot_run(s.skip(1)) ==> s.skip(1)[j] != '.');
        assert(forall|j: int| 1 <= j < dot_run(s) ==> s[j] == s.skip(1)[j - 1]);
    }
}

/// A position bounds the dot run exactly when no dot stands before it and
/// it is the end or a dot.
proof fn lemma_dot_run_at(s: Seq<char>, i: int)
    requires
        0 <= i <= s.len(),
        forall|j: int| 0 <= j < i ==> s[j] != '.',
        i == s.len() || s[i] == '.',
    ensures
        dot_run(s) == i,
    decreases s.len(),
{
    if s.len() == 0 {
    } else if i == 0 {
    } else {
        assert(forall|j: int| 0 <= j < i - 1 ==> s.skip(1)[j] == s[j + 1]);
        lemma_dot_run_at(s.skip(1), i - 1);
    }
}

/// Joining the pieces with dots.
pub open spec fn join_dots(l: Seq<Seq<char>>) -> Seq<char>
    decreases l.len(),
{
    if l.len() == 0 {
        Seq::empty()
    } else if l.len() == 1 {
        l[0]
    } else {
        l[0] + seq!['.'] + join_dots(l.skip(1))
    }
}

proof fn lemma_split_nonempty(s: Seq<char>)
    ensures
        split_dots(s).len() >= 1,
{
    lemma_dot_run_bounds(s);
}

/// Splitting on dots loses nothing: joining the pieces with dots gives the
/// original text back.
proof fn lemma_split_join(s: Seq<char>)
    ensures
        join_dots(split_dots(s)) == s,
    decreases s.len(),
{
    let a = dot_run(s);
    lemma_dot_run_bounds(s);
    if a == s.len() {
        assert(join_dots(seq![s]) == s);
    } else {
        lemma_split_join(s.skip(a + 1));
        lemma_split_nonempty(s.skip(a + 1));
        let l = split_dots(s);
        assert(l.len() >= 2);
        assert(l[0] == s.take(a));
        assert(l.skip(1) =~= split_dots(s.skip(a + 1)));
        assert(join_dots(l) == s.take(a) + seq!['.'] + s.skip(a + 1));
        assert(s.take(a) + seq!['.'] + s.skip(a + 1) =~= s);
    }
}

/// Strict lexicographic order on character sequences, by character code.
pub open spec fn lex_lt(a: Seq<char>, b: Seq<char>) -> bool
    decreases a.len(),
{
    b.len() > 0 && (a.len() == 0 || {
        if a[0] != b[0] {
            (a[0] as u32) < (b[0] as u32)
        } else {
            lex_lt(a.skip(1), b.skip(1))
        }
    })
}

/// Strict precedence order on pre-release identifiers: numeric identifiers
/// compare by value and rank below alphanumeric ones, which compare
/// lexically in ASCII order.
pub open spec fn ident_lt(a: Seq<char>, b: Seq<char>) -> bool {
    if all_digits(a) && all_digits(b) {
        dec_val(a) < dec_val(b)
    } else if all_digits(a) {
        true
    } else if all_digits(b) {
        false
    } else {
        lex_lt(a, b)
    }
}

/// Strict precedence order on pre-release identifier lists: the first
/// differing identifier decides, and a strict prefix ranks lower.
pub open spec fn pre_list_lt(a: Seq<Seq<char>>, b: Seq<Seq<char>>) -> bool
    decreases a.len(),
{
    if b.len() == 0 {
        false
    } else if a.len() == 0 {
        true
    } else if a[0] == b[0] {
        pre_list_lt(a.skip(1), b.skip(1))
    } else {
        ident_lt(a[0], b[0])
    }
}

/// Strict semantic-version precedence: numeric fields first, then a
/// release above any pre-release, then the pre-release lists.
pub open spec fn semver_lt(x: SemVer, y: SemVer) -> bool {
    if x.major != y.major {
        x.major < y.major
    } else if x.minor != y.minor {
        x.minor < y.minor
    } else if x.patch != y.patch {
        x.patch < y.patch
    } else if x.pre@.len() == 0 {
        false
    } else if y.pre@.len() == 0 {
        true
    } else {
        pre_list_lt(split_dots(x.pre@), split_dots(y.pre@))
    }
}

/// Semantic-version equality under the precedence rules: equal numeric
/// fields and identical pre-release text.
pub open spec fn semver_eq(x: SemVer, y: SemVer) -> bool {
    x.major == y.major && x.minor == y.minor && x.patch == y.patch && x.pre@ == y.pre@
}

/// Relies on `semver::Version::parse`: it accepts exactly the
/// semantic-versioning grammar, and its pre-release identifiers are
/// non-empty, drawn from ASCII letters, digits and hyphens, and free of
/// leading zeros when fully numeric.
#[verifier::external_body]
fn parse_version(s: &str) -> (r: Option<SemVer>)
    ensures
        r is Some <==> version_of(s@) is Some,
        r is Some ==> {
            let v = r.unwrap();
            let w = version_of(s@).unwrap();
            v.major == w.major && v.minor == w.minor && v.patch == w.patch && v.pre@ == w.pre@
        },
        r is Some ==> pre_text_wf(r.unwrap().pre@),
{
    match semver::Version::parse(s) {
        Ok(v) => Some(
            SemVer {
                major: v.major,
                minor: v.minor,
                patch: v.patch,
                pre: v.pre.as_str().to_string(),
            },
        ),
        Err(_) => None,
    }
}

fn is_digits_only(s: &str) -> (r: bool)
    ensures
        r == all_digits(s@),
{
    let len = s.unicode_len();
    let mut i: usize = 0;
    while i < len
        invariant
            len == s@.len(),
            i <= len,
            forall|j: int| 0 <= j < i ==> is_digit(s@[j]),
        decreases len - i,
    {
        let u = s.get_char(i) as u32;
        if u < 48 || u > 57 {
            return false;
        }
        i += 1;
    }
    true
}

/// Lexicographic comparison of the tails from position `i` on.
fn lex_cmp_from(a: &str, alen: usize, b: &str, blen: usize, i: usize) -> (r: Rel)
    requires
        alen == a@.len(),
        blen == b@.len(),
        i <= alen,
        i <= blen,
    ensures
        (r == Rel::Lt) == lex_lt(a@.skip(i as int), b@.skip(i as int)),
        (r == Rel::Gt) == lex_lt(b@.skip(i as int), a@.skip(i as int)),
        (r == Rel::Eq) == (a@.skip(i as int) == b@.skip(i as int)),
    decreases alen - i,
{
    let ghost ta = a@.skip(i as int);
    let ghost tb = b@.skip(i as int);
    if i == alen && i == blen {
        proof {
            assert(ta =~= tb);
        }
        Rel::Eq
    } else if i == alen {
        Rel::Lt
    } else if i == blen {
        Rel::Gt
    } else {
        let ca = a.get_char(i);
        let cb = b.get_char(i);
        proof {
            assert(ta[0] == a@[i as int]);
            assert(tb[0] == b@[i as int]);
        }
        if ca != cb {
            if (ca as u32) < (cb as u32) {
                Rel::Lt
            } else {
                proof {
                    assert(ta != tb);
                }
                Rel::Gt
            }
        } else {
            let r = lex_cmp_from(a, alen, b, blen, i + 1);
            proof {
                assert(ta.skip(1) =~= a@.skip(i + 1));
                assert(tb.skip(1) =~= b@.skip(i + 1));
                if r == Rel::Eq {
                    assert(forall|j: int| 1 <= j < ta.len() ==> ta[j] == ta.skip(1)[j - 1]);
                    assert(forall|j: int| 1 <= j < tb.len() ==> tb[j] == tb.skip(1)[j - 1]);
                    assert(ta =~= tb);
                } else {
                    if ta == tb {
                        assert(ta.skip(1) == tb.skip(1));
                    }
                }
            }
            r
        }
    }
}

/// Numeric comparison of two all-digit identifiers, by length and then
/// lexically, which under the no-leading-zero rule is value order.
fn cmp_numeric(a: &str, b: &str) -> (r: Rel)
    requires
        ident_wf(a@),
        ident_wf(b@),
        all_digits(a@),
        all_digits(b@),
    ensures
        (r == Rel::Lt) == (dec_val(a@) < dec_val(b@)),
        (r == Rel::Gt) == (dec_val(b@) < dec_val(a@)),
        (r == Rel::Eq) == (a@ == b@),
{
    let alen = a.unicode_len();
    let blen = b.unicode_len();
    if alen < blen {
        proof {
            lemma_dec_val_upper(a@);
            lemma_dec_val_lower(b@);
            lemma_pow10_mono(alen as nat, (blen - 1) as nat);
        }
        return Rel::Lt;
    }
    if blen < alen {
        proof {
            lemma_dec_val_upper(b@);
            lemma_dec_val_lower(a@);
            lemma_pow10_mono(blen as nat, (alen - 1) as nat);
        }
        return Rel::Gt;
    }
    let mut j: usize = 0;
    while j < alen
        invariant
            alen == a@.len(),
            blen == b@.len(),
            alen == blen,
            j <= alen,
            all_digits(a@),
            all_digits(b@),
            forall|k: int| 0 <= k < j ==> a@[k] == b@[k],
        decreases alen - j,
    {
        let ca = a.get_char(j);
        let cb = b.get_char(j);
        if ca != cb {
            if (ca as u32) < (cb as u32) {
                proof {
                    lemma_dec_val_same_len(a@, b@, j as int);
                }
                return Rel::Lt;
            } else {
                proof {
                    lemma_dec_val_same_len(b@, a@, j as int);
                }
                return Rel::Gt;
            }
        }
        j += 1;
    }
    proof {
        assert(a@ =~= b@);
    }
    Rel::Eq
}

/// Comparison of two well-formed pre-release identifiers under the
/// precedence rules.
fn cmp_ident(a: &str, b: &str) -> (r: Rel)
    requires
        ident_wf(a@),
        ident_wf(b@),
    ensures
        (r == Rel::Lt) == ident_lt(a@, b@),
        (r == Rel::Gt) == ident_lt(b@, a@),
        (r == Rel::Eq) == (a@ == b@),
{
    let na = is_digits_only(a);
    let nb = is_digits_only(b);
    if na && nb {
        cmp_numeric(a, b)
    } else if na {
        Rel::Lt
    } else if nb {
        Rel::Gt
    } else {
        let alen = a.unicode_len();
        let blen = b.unicode_len();
        let r = lex_cmp_from(a, alen, b, blen, 0);
        proof {
            assert(a@.skip(0) =~= a@);
            assert(b@.skip(0) =~= b@);
        }
        r
    }
}

/// Comparison of the identifier lists from position `i` on.
fn cmp_lists_from(a: &Vec<String>, b: &Vec<String>, i: usize) -> (r: Rel)
    requires
        i <= a@.len(),
        i <= b@.len(),
        forall|k: int| i <= k < a@.len() ==> ident_wf(#[trigger] a@[k]@),
        forall|k: int| i <= k < b@.len() ==> ident_wf(#[trigger] b@[k]@),
    ensures
        (r == Rel::Lt) == pre_list_lt(
            a@.map_values(|t: String| t@).skip(i as int),
            b@.map_values(|t: String| t@).skip(i as int),
        ),
        (r == Rel::Gt) == pre_list_lt(
            b@.map_values(|t: String| t@).skip(i as int),
            a@.map_values(|t: String| t@).skip(i as int),
        ),
        (r == Rel::Eq) == (a@.map_values(|t: String| t@).skip(i as int) == b@.map_values(
            |t: String| t@,
        ).skip(i as int)),
    decreases a@.len() - i,
{
    let ghost va = a@.map_values(|t: String| t@).skip(i as int);
    let ghost vb = b@.map_values(|t: String| t@).skip(i as int);
    let an = a.len();
    let bn = b.len();
    if i == an && i == bn {
        proof {
            assert(va =~= vb);
        }
        Rel::Eq
    } else if i == an {
        proof {
            assert(vb.len() > 0);
        }
        Rel::Lt
    } else if i == bn {
        Rel::Gt
    } else {
        proof {
            assert(va[0] == a@[i as int]@);
            assert(vb[0] == b@[i as int]@);
        }
        let c = cmp_ident(a[i].as_str(), b[i].as_str());
        match c {
            Rel::Eq => {
                let r = cmp_lists_from(a, b, i + 1);
                proof {
                    assert(va.skip(1) =~= a@.map_values(|t: String| t@).skip(i + 1));
                    assert(vb.skip(1) =~= b@.map_values(|t: String| t@).skip(i + 1));
                    if r == Rel::Eq {
                        assert(forall|j: int| 1 <= j < va.len() ==> va[j] == va.skip(1)[j - 1]);
                        assert(forall|j: int| 1 <= j < vb.len() ==> vb[j] == vb.skip(1)[j - 1]);
                        assert(va =~= vb);
                    } else {
                        if va == vb {
                            assert(va.skip(1) == vb.skip(1));
                        }
                    }
                }
                r
            },
            Rel::Lt => {
                proof {
                    assert(va != vb);
                }
                Rel::Lt
            },
            Rel::Gt => {
                proof {
                    assert(va != vb);
                }
                Rel::Gt
            },
        }
    }
}

/// Finds the next dot at or after `from`, or the end of the string.
fn find_dot(p: &str, len: usize, from: usize) -> (d: usize)
    requires
        len == p@.len(),
        from <= len,
    ensures
        from <= d <= len,
        forall|j: int| from <= j < d ==> p@[j] != '.',
        d == len || p@[d as int] == '.',
{
    let mut d: usize = from;
    while d < len
        invariant
            len == p@.len(),
            from <= d <= len,
            forall|j: int| from <= j < d ==> p@[j] != '.',
        decreases len - d,
    {
        if p.get_char(d) == '.' {
            return d;
        }
        d += 1;
    }
    d
}

/// Splits pre-release text into its dot-separated identifiers.
fn split_pre(p: &str) -> (r: Vec<String>)
    ensures
        r@.map_values(|t: String| t@) == split_dots(p@),
{
    let len = p.unicode_len();
    let mut r: Vec<String> = Vec::new();
    let mut at: usize = 0;
    proof {
        assert(p@.skip(0) =~= p@);
        assert(r@.map_values(|t: String| t@) =~= Seq::<Seq<char>>::empty());
    }
    loop
        invariant
            len == p@.len(),
            at <= len,
            split_dots(p@) =~= r@.map_values(|t: String| t@) + split_dots(p@.skip(at as int)),
        decreases len - at,
    {
        let ghost rem = p@.skip(at as int);
        let ghost built = r@.map_values(|t: String| t@);
        let d = find_dot(p, len, at);
        proof {
            assert(forall|j: int| 0 <= j < d - at ==> rem[j] == p@[at + j]);
            if d < len {
                assert(rem[d - at] == p@[d as int]);
            }
            lemma_dot_run_at(rem, d - at);
        }
        let piece = p.substring_char(at, d);
        let owned = piece.to_owned();
        r.push(owned);
        proof {
            assert(piece@ =~= rem.take(d - at));
            assert(r@.map_values(|t: String| t@) =~= built + seq![rem.take(d - at)]);
        }
        if d == len {
            proof {
                assert(dot_run(rem) == rem.len());
                assert(split_dots(rem) == seq![rem]);
                assert(rem.take(d - at) =~= rem);
                assert(r@.map_values(|t: String| t@) =~= built + seq![rem]);
                assert(split_dots(p@) =~= r@.map_values(|t: String| t@));
            }
            return r;
        }
        proof {
            assert(dot_run(rem) == d - at < rem.len());
            assert(split_dots(rem) == seq![rem.take(d - at)] + split_dots(rem.skip(d - at + 1)));
            assert(rem.skip(d - at + 1) =~= p@.skip(d + 1));
            assert(split_dots(p@) =~= r@.map_values(|t: String| t@) + split_dots(p@.skip(d + 1)));
        }
        at = d + 1;
    }
}

} // verus!

verus! {

/// Compares two parsed versions under semantic-version precedence.
pub fn compare(x: &SemVer, y: &SemVer) -> (r: Rel)
    requires
        pre_text_wf(x.pre@),
        pre_text_wf(y.pre@),
    ensures
        (r == Rel::Lt) == semver_lt(*x, *y),
        (r == Rel::Gt) == semver_lt(*y, *x),
        (r == Rel::Eq) == semver_eq(*x, *y),
{
    if x.major != y.major {
        return if x.major < y.major {
            Rel::Lt
        } else {
            Rel::Gt
        };
    }
    if x.minor != y.minor {
        return if x.minor < y.minor {
            Rel::Lt
        } else {
            Rel::Gt
        };
    }
    if x.patch != y.patch {
        return if x.patch < y.patch {
            Rel::Lt
        } else {
            Rel::Gt
        };
    }
    let xe = x.pre.as_str().unicode_len() == 0;
    let ye = y.pre.as_str().unicode_len() == 0;
    if xe && ye {
        proof {
            assert(x.pre@ =~= y.pre@);
        }
        return Rel::Eq;
    }
    if xe {
        return Rel::Gt;
    }
    if ye {
        return Rel::Lt;
    }
    let xl = split_pre(x.pre.as_str());
    let yl = split_pre(y.pre.as_str());
    proof {
        assert(forall|k: int| 0 <= k < xl@.len() ==> #[trigger] xl@[k]@ == xl@.map_values(
            |t: String| t@,
        )[k]);
        assert(forall|k: int| 0 <= k < yl@.len() ==> #[trigger] yl@[k]@ == yl@.map_values(
            |t: String| t@,
        )[k]);
    }
    let r = cmp_lists_from(&xl, &yl, 0);
    proof {
        let vx = xl@.map_values(|t: String| t@);
        let vy = yl@.map_values(|t: String| t@);
        assert(vx.skip(0) =~= vx);
        assert(vy.skip(0) =~= vy);
        if vx == vy {
            lemma_split_join(x.pre@);
            lemma_split_join(y.pre@);
            assert(x.pre@ == y.pre@);
        }
        if x.pre@ == y.pre@ {
            assert(vx =~= vy);
        }
    }
    r
}

/// Whether the relation holds of two version strings under semantic-version
/// precedence: both must parse, the numeric fields compare first, a release
/// ranks above its pre-releases, and build metadata is ignored.  Either
/// operand failing to parse makes the predicate false.
pub open spec fn semver_check(op: CmpOp, a: Seq<char>, b: Seq<char>) -> bool {
    match (version_of(a), version_of(b)) {
        (Some(x), Some(y)) => match op {
            CmpOp::Eq => semver_eq(x, y),
            CmpOp::Ne => !semver_eq(x, y),
            CmpOp::Gt => semver_lt(y, x),
            CmpOp::Ge => !semver_lt(x, y),
            CmpOp::Lt => semver_lt(x, y),
            CmpOp::Le => !semver_lt(y, x),
        },
        _ => false,
    }
}

/// Evaluates a relational operator on two version strings; false when
/// either operand is not a semantic version.
pub fn semver_compare(op: CmpOp, a: &str, b: &str) -> (r: bool)
    ensures
        r == semver_check(op, a@, b@),
{
    let pa = parse_version(a);
    let pb = parse_version(b);
    match (pa, pb) {
        (Some(x), Some(y)) => {
            let rel = compare(&x, &y);
            proof {
                let wx = version_of(a@).unwrap();
                let wy = version_of(b@).unwrap();
                assert(split_dots(x.pre@) == split_dots(wx.pre@));
                assert(split_dots(y.pre@) == split_dots(wy.pre@));
                assert(semver_lt(x, y) == semver_lt(wx, wy));
                assert(semver_lt(y, x) == semver_lt(wy, wx));
                assert(semver_eq(x, y) == semver_eq(wx, wy));
            }
            match op {
                CmpOp::Eq => rel == Rel::Eq,
                CmpOp::Ne => rel != Rel::Eq,
                CmpOp::Gt => rel == Rel::Gt,
                CmpOp::Ge => rel != Rel::Lt,
                CmpOp::Lt => rel == Rel::Lt,
                CmpOp::Le => rel != Rel::Gt,
            }
        },
        _ => false,
    }
}

} // verus!
