//! Decimal parsing and string-classification predicates: integer and
//! numeric shape, UUID shape, and dotted-quad IPv4 shape.

use vstd::prelude::*;

verus! {

/// The character is a decimal digit.
pub open spec fn is_digit(c: char) -> bool {
    48 <= c as u32 && c as u32 <= 57
}

/// The numeric value of a decimal digit character.
pub open spec fn digit_val(c: char) -> int {
    c as u32 - 48
}

/// Every character of the sequence is a decimal digit.
pub open spec fn all_digits(s: Seq<char>) -> bool {
    forall|i: int| 0 <= i < s.len() ==> is_digit(s[i])
}

/// The value of a sequence of decimal digits, most significant first.
pub open spec fn dec_val(s: Seq<char>) -> int
    decreases s.len(),
{
    if s.len() == 0 {
        0
    } else {
        dec_val(s.drop_last()) * 10 + digit_val(s.last())
    }
}

/// Ten to the given power.
pub open spec fn pow10(n: nat) -> int
    decreases n,
{
    if n == 0 {
        1
    } else {
        10 * pow10((n - 1) as nat)
    }
}

/// A digit other than `'0'` has a value of at least one.
proof fn lemma_digit_nonzero(c: char)
    requires
        is_digit(c),
        c != '0',
    ensures
        digit_val(c) >= 1,
{
}

proof fn lemma_dec_val_nonneg(s: Seq<char>)
    requires
        all_digits(s),
    ensures
        dec_val(s) >= 0,
    decreases s.len(),
{
    if s.len() > 0 {
        assert(all_digits(s.drop_last()));
        lemma_dec_val_nonneg(s.drop_last());
    }
}

/// The value of a digit sequence only grows as digits are appended.
proof fn lemma_dec_val_prefix(s: Seq<char>, i: int)
    requires
        all_digits(s),
        0 <= i <= s.len(),
    ensures
        dec_val(s.take(i)) <= dec_val(s),
    decreases s.len() - i,
{
    if i == s.len() {
        assert(s.take(i) =~= s);
    } else {
        assert(s.take(i + 1).drop_last() =~= s.take(i));
        assert(all_digits(s.take(i)));
        lemma_dec_val_nonneg(s.take(i));
        assert(dec_val(s.take(i + 1)) == dec_val(s.take(i)) * 10 + digit_val(s[i]));
        lemma_dec_val_prefix(s, i + 1);
    }
}

/// A digit sequence is bounded above by ten to its length.
pub proof fn lemma_dec_val_upper(s: Seq<char>)
    requires
        all_digits(s),
    ensures
        dec_val(s) < pow10(s.len()),
    decreases s.len(),
{
    if s.len() > 0 {
        assert(all_digits(s.drop_last()));
        lemma_dec_val_upper(s.drop_last());
    }
}

/// A digit sequence without a leading zero is at least ten to one less
/// than its length.
pub proof fn lemma_dec_val_lower(s: Seq<char>)
    requires
        all_digits(s),
        s.len() > 0,
        s[0] != '0',
    ensures
        dec_val(s) >= pow10((s.len() - 1) as nat),
    decreases s.len(),
{
    if s.len() == 1 {
        assert(is_digit(s[0]));
        lemma_digit_nonzero(s[0]);
        assert(s.last() == s[0]);
        assert(s.drop_last().len() == 0);
        assert(dec_val(s.drop_last()) == 0);
        assert(pow10(0) == 1);
        assert(dec_val(s) == digit_val(s[0]));
    } else {
        assert(all_digits(s.drop_last()));
        assert(s.drop_last()[0] == s[0]);
        lemma_dec_val_lower(s.drop_last());
        assert(is_digit(s.last()));
        assert(pow10((s.len() - 1) as nat) == 10 * pow10((s.len() - 2) as nat));
        assert(dec_val(s.drop_last()) * 10 >= pow10((s.len() - 2) as nat) * 10);
    }
}

proof fn lemma_pow10_small()
    ensures
        pow10(0) == 1,
        pow10(1) == 10,
        pow10(2) == 100,
        pow10(3) == 1000,
{
    assert(pow10(0) == 1);
    assert(pow10(1) == 10 * pow10(0));
    assert(pow10(2) == 10 * pow10(1));
    assert(pow10(3) == 10 * pow10(2));
}

pub proof fn lemma_pow10_mono(a: nat, b: nat)
    requires
        a <= b,
    ensures
        pow10(a) <= pow10(b),
        pow10(a) >= 1,
    decreases b,
{
    if a == b {
        if a > 0 {
            lemma_pow10_mono((a - 1) as nat, (b - 1) as nat);
        }
    } else {
        lemma_pow10_mono(a, (b - 1) as nat);
    }
}

/// Two equal-length digit sequences order as their values do at the first
/// position where they differ.
pub proof fn lemma_dec_val_same_len(a: Seq<char>, b: Seq<char>, k: int)
    requires
        all_digits(a),
        all_digits(b),
        a.len() == b.len(),
        0 <= k < a.len(),
        forall|j: int| 0 <= j < k ==> a[j] == b[j],
        digit_val(a[k]) < digit_val(b[k]),
    ensures
        dec_val(a) < dec_val(b),
    decreases a.len(),
{
    if k == a.len() - 1 {
        assert(a.drop_last() =~= b.drop_last());
    } else {
        assert(all_digits(a.drop_last()));
        assert(all_digits(b.drop_last()));
        lemma_dec_val_same_len(a.drop_last(), b.drop_last(), k);
    }
}

/// The shape of a signed decimal integer literal: an optional sign and at
/// least one digit.
pub open spec fn int_shape(s: Seq<char>) -> bool {
    s.len() > 0 && {
        let body = if s[0] == '+' || s[0] == '-' {
            s.skip(1)
        } else {
            s
        };
        body.len() > 0 && all_digits(body)
    }
}

/// The mathematical value a signed decimal integer literal denotes.
pub open spec fn int_val(s: Seq<char>) -> int
    recommends
        int_shape(s),
{
    if s.len() > 0 && s[0] == '-' {
        -dec_val(s.skip(1))
    } else if s.len() > 0 && s[0] == '+' {
        dec_val(s.skip(1))
    } else {
        dec_val(s)
    }
}

/// The string denotes an integer that fits in a signed 64-bit word: the
/// strings `str::parse::<i64>` accepts.
pub open spec fn is_i64_string(s: Seq<char>) -> bool {
    int_shape(s) && i64::MIN <= int_val(s) <= i64::MAX
}

/// The string denotes an unsigned integer that fits in an unsigned 64-bit
/// word: the strings `str::parse::<u64>` accepts.
pub open spec fn is_u64_string(s: Seq<char>) -> bool {
    int_shape(s) && s[0] != '-' && int_val(s) <= u64::MAX
}

/// Parses the digits of `s` from position `from` on, as long as the value
/// stays within `limit`; yields the value, or nothing once it would pass
/// the limit or a non-digit stands anywhere from `from` to the end.
fn parse_digits(s: &str, len: usize, from: usize, limit: u64) -> (r: Option<u64>)
    requires
        len == s@.len(),
        from <= len,
    ensures
        match r {
            Some(v) => all_digits(s@.skip(from as int)) && len - from > 0 && v == dec_val(
                s@.skip(from as int),
            ) && v <= limit,
            None => !(all_digits(s@.skip(from as int)) && len - from > 0 && dec_val(
                s@.skip(from as int),
            ) <= limit),
        },
{
    if from == len {
        return None;
    }
    let ghost body = s@.skip(from as int);
    let mut acc: u64 = 0;
    let mut i: usize = from;
    while i < len
        invariant
            len == s@.len(),
            from <= i <= len,
            body == s@.skip(from as int),
            all_digits(body.take(i - from)),
            acc == dec_val(body.take(i - from)),
            acc <= limit,
        decreases len - i,
    {
        let c = s.get_char(i);
        let u = c as u32;
        if u < 48 || u > 57 {
            assert(body[i - from] == s@[i as int]);
            return None;
        }
        let d: u64 = (u - 48) as u64;
        proof {
            assert(body.take(i - from + 1).drop_last() =~= body.take(i - from));
            assert(body.take(i - from + 1).last() == s@[i as int]);
        }
        if acc > limit / 10 || (acc == limit / 10 && d > limit % 10) {
            proof {
                assert(acc * 10 + d > limit) by (nonlinear_arith)
                    requires
                        acc > limit / 10 || (acc == limit / 10 && d > limit % 10),
                        acc >= 0,
                        d >= 0,
                        limit == (limit / 10) * 10 + (limit % 10),
                        0 <= limit % 10 < 10,
                ;
                if all_digits(body) {
                    lemma_dec_val_prefix(body, i - from + 1);
                }
            }
            return None;
        }
        proof {
            assert(acc * 10 + d <= limit) by (nonlinear_arith)
                requires
                    acc <= limit / 10,
                    acc == limit / 10 ==> d <= limit % 10,
                    acc >= 0,
                    0 <= d <= 9,
                    limit == (limit / 10) * 10 + (limit % 10),
                    0 <= limit % 10 < 10,
            ;
        }
        acc = acc * 10 + d;
        i += 1;
    }
    proof {
        assert(body.take(len - from) =~= body);
    }
    Some(acc)
}

/// Parses a signed decimal integer, exactly as `str::parse::<i64>` does:
/// an optional sign, at least one digit, and a value that fits.
pub fn parse_i64(s: &str) -> (r: Option<i64>)
    ensures
        r is Some <==> is_i64_string(s@),
        r is Some ==> r.unwrap() == int_val(s@),
{
    let len = s.unicode_len();
    if len == 0 {
        return None;
    }
    let c0 = s.get_char(0);
    if c0 == '-' {
        match parse_digits(s, len, 1, 9223372036854775808u64) {
            Some(v) => {
                if v == 9223372036854775808u64 {
                    Some(i64::MIN)
                } else {
                    Some(-(v as i64))
                }
            },
            None => None,
        }
    } else if c0 == '+' {
        match parse_digits(s, len, 1, 9223372036854775807u64) {
            Some(v) => Some(v as i64),
            None => None,
        }
    } else {
        proof {
            assert(s@.skip(0) =~= s@);
        }
        match parse_digits(s, len, 0, 9223372036854775807u64) {
            Some(v) => Some(v as i64),
            None => None,
        }
    }
}

/// Parses an unsigned decimal integer, exactly as `str::parse::<u64>`
/// does: an optional `+`, at least one digit, and a value that fits.
pub fn parse_u64(s: &str) -> (r: Option<u64>)
    ensures
        r is Some <==> is_u64_string(s@) && s@[0] != '-',
        r is Some ==> r.unwrap() == int_val(s@),
{
    let len = s.unicode_len();
    if len == 0 {
        return None;
    }
    let c0 = s.get_char(0);
    if c0 == '-' {
        None
    } else if c0 == '+' {
        parse_digits(s, len, 1, u64::MAX)
    } else {
        proof {
            assert(s@.skip(0) =~= s@);
        }
        parse_digits(s, len, 0, u64::MAX)
    }
}

/// The string denotes a base-ten integer a signed 64-bit word can hold.
pub fn is_integer(s: &str) -> (r: bool)
    ensures
        r == is_i64_string(s@),
{
    parse_i64(s).is_some()
}

} // verus!


verus! {

/// The length of the longest run of decimal digits at the front of the
/// sequence.
pub open spec fn digits_run_len(s: Seq<char>) -> int
    decreases s.len(),
{
    if s.len() == 0 || !is_digit(s[0]) {
        0
    } else {
        1 + digits_run_len(s.skip(1))
    }
}

/// A position bounds the digit run exactly when everything before it is a
/// digit and it is the end or a non-digit.
proof fn lemma_digits_run(s: Seq<char>, i: int)
    requires
        0 <= i <= s.len(),
        forall|j: int| 0 <= j < i ==> is_digit(s[j]),
        i == s.len() || !is_digit(s[i]),
    ensures
        digits_run_len(s) == i,
    decreases s.len(),
{
    if s.len() == 0 {
    } else if i == 0 {
    } else {
        assert(is_digit(s[0]));
        assert(forall|j: int| 0 <= j < i - 1 ==> s.skip(1)[j] == s[j + 1]);
        lemma_digits_run(s.skip(1), i - 1);
    }
}

/// Finds how many decimal digits stand at and after position `from`.
fn digits_run(s: &str, len: usize, from: usize) -> (r: usize)
    requires
        len == s@.len(),
        from <= len,
    ensures
        from + r <= len,
        r == digits_run_len(s@.skip(from as int)),
        forall|j: int| from <= j < from + r ==> is_digit(s@[j]),
        from + r == len || !is_digit(s@[from + r]),
{
    let mut i: usize = from;
    while i < len
        invariant
            len == s@.len(),
            from <= i <= len,
            forall|j: int| from <= j < i ==> is_digit(s@[j]),
        decreases len - i,
    {
        let u = s.get_char(i) as u32;
        if u < 48 || u > 57 {
            proof {
                assert(forall|j: int|
                    0 <= j < i - from ==> s@.skip(from as int)[j] == s@[from + j]);
                lemma_digits_run(s@.skip(from as int), i - from);
            }
            return i - from;
        }
        i += 1;
    }
    proof {
        assert(forall|j: int| 0 <= j < len - from ==> s@.skip(from as int)[j] == s@[from + j]);
        lemma_digits_run(s@.skip(from as int), len - from);
    }
    len - from
}

/// The shape of an exponent part: `e` or `E`, an optional sign, and at
/// least one digit reaching the end.
pub open spec fn is_exp_tail(r: Seq<char>) -> bool {
    r.len() >= 1 && (r[0] == 'e' || r[0] == 'E') && {
        let t = r.skip(1);
        let u = if t.len() > 0 && (t[0] == '+' || t[0] == '-') {
            t.skip(1)
        } else {
            t
        };
        u.len() > 0 && all_digits(u)
    }
}

/// The shape of an unsigned floating-point literal: digits around an
/// optional point, at least one of them, then an optional exponent.
pub open spec fn is_decimal_float(b: Seq<char>) -> bool {
    let i = digits_run_len(b);
    let rest = b.skip(i);
    if rest.len() == 0 {
        i > 0
    } else if rest[0] == '.' {
        let frac = rest.skip(1);
        let j = digits_run_len(frac);
        let rest2 = frac.skip(j);
        i + j > 0 && (rest2.len() == 0 || is_exp_tail(rest2))
    } else {
        i > 0 && is_exp_tail(rest)
    }
}

/// The strings `str::parse::<f64>` accepts: an optional sign, then one of
/// the special words `inf`, `infinity` or `nan` in any case, or a decimal
/// literal with an optional fraction and exponent.
pub open spec fn is_f64_string(s: Seq<char>) -> bool {
    s.len() > 0 && {
        let b = if s[0] == '+' || s[0] == '-' {
            s.skip(1)
        } else {
            s
        };
        crate::strutil::ascii_eq_ci(b, "inf"@) || crate::strutil::ascii_eq_ci(b, "infinity"@)
            || crate::strutil::ascii_eq_ci(b, "nan"@) || is_decimal_float(b)
    }
}

/// Whether an exponent part fills `s` from position `at` to the end.
fn exp_tail(s: &str, len: usize, at: usize) -> (r: bool)
    requires
        len == s@.len(),
        at <= len,
    ensures
        r == is_exp_tail(s@.skip(at as int)),
{
    let ghost rr = s@.skip(at as int);
    if at == len {
        return false;
    }
    let c = s.get_char(at);
    if c != 'e' && c != 'E' {
        return false;
    }
    let t = at + 1;
    let u: usize = if t < len {
        let cs = s.get_char(t);
        if cs == '+' || cs == '-' {
            t + 1
        } else {
            t
        }
    } else {
        t
    };
    proof {
        assert(rr.skip(1) =~= s@.skip(t as int));
        if u != t {
            assert(s@.skip(t as int).skip(1) =~= s@.skip(u as int));
        }
    }
    if u == len {
        return false;
    }
    let k = digits_run(s, len, u);
    proof {
        assert(forall|j: int| 0 <= j < len - u ==> s@.skip(u as int)[j] == s@[u + j]);
        if u + k == len {
            assert(all_digits(s@.skip(u as int)));
        } else {
            assert(!is_digit(s@.skip(u as int)[u + k - u]));
        }
    }
    u + k == len
}

/// Whether the string is one `str::parse::<f64>` accepts; no numeric value
/// is computed, only the shape is checked.
#[verifier::rlimit(60)]
pub fn is_number(s: &str) -> (r: bool)
    ensures
        r == is_f64_string(s@),
{
    let len = s.unicode_len();
    if len == 0 {
        return false;
    }
    let c0 = s.get_char(0);
    let start: usize = if c0 == '+' || c0 == '-' {
        1
    } else {
        0
    };
    let ghost b = if start == 1 {
        s@.skip(1)
    } else {
        s@
    };
    proof {
        assert(s@.skip(0) =~= s@);
        assert(b =~= s@.skip(start as int));
    }
    let body = s.substring_char(start, len);
    if crate::strutil::eq_ignore_ascii_case(body, "inf")
        || crate::strutil::eq_ignore_ascii_case(body, "infinity")
        || crate::strutil::eq_ignore_ascii_case(body, "nan") {
        proof {
            assert(body@ =~= b);
        }
        return true;
    }
    proof {
        assert(body@ =~= b);
    }
    let i = digits_run(s, len, start);
    let p = start + i;
    proof {
        assert(digits_run_len(b) == i);
        assert(b.skip(i as int) =~= s@.skip(p as int));
    }
    if p == len {
        return i > 0;
    }
    let c = s.get_char(p);
    if c == '.' {
        let j = digits_run(s, len, p + 1);
        let q = p + 1 + j;
        proof {
            assert(b.skip(i as int)[0] == s@[p as int]);
            assert(b.skip(i as int).skip(1) =~= s@.skip(p + 1 as int));
            assert(digits_run_len(s@.skip(p + 1 as int)) == j);
            assert(s@.skip(p + 1 as int).skip(j as int) =~= s@.skip(q as int));
        }
        if q == len {
            return i + j > 0;
        }
        let e = exp_tail(s, len, q);
        i + j > 0 && e
    } else {
        proof {
            assert(b.skip(i as int)[0] == s@[p as int]);
        }
        let e = exp_tail(s, len, p);
        i > 0 && e
    }
}

/// The character is a hexadecimal digit in either case.
pub open spec fn is_hex_digit(c: char) -> bool {
    is_digit(c) || (97 <= c as u32 && c as u32 <= 102) || (65 <= c as u32 && c as u32 <= 70)
}

/// The `8-4-4-4-12` UUID shape: 36 characters, hyphens at the four group
/// boundaries, hexadecimal digits of either case everywhere else.
pub open spec fn is_uuid_string(s: Seq<char>) -> bool {
    s.len() == 36 && s[8] == '-' && s[13] == '-' && s[18] == '-' && s[23] == '-' && forall|i: int|
        (0 <= i < 36 && i != 8 && i != 13 && i != 18 && i != 23) ==> is_hex_digit(#[trigger] s[i])
}

/// Whether the string has the UUID shape.
pub fn is_uuid(s: &str) -> (r: bool)
    ensures
        r == is_uuid_string(s@),
{
    let len = s.unicode_len();
    if len != 36 {
        return false;
    }
    let mut i: usize = 0;
    while i < 36
        invariant
            s@.len() == 36,
            i <= 36,
            s@[8] == '-' || i <= 8,
            s@[13] == '-' || i <= 13,
            s@[18] == '-' || i <= 18,
            s@[23] == '-' || i <= 23,
            forall|j: int|
                (0 <= j < i && j != 8 && j != 13 && j != 18 && j != 23) ==> is_hex_digit(
                    #[trigger] s@[j],
                ),
        decreases 36 - i,
    {
        let c = s.get_char(i);
        if i == 8 || i == 13 || i == 18 || i == 23 {
            if c != '-' {
                return false;
            }
        } else {
            let u = c as u32;
            let hex = (48 <= u && u <= 57) || (97 <= u && u <= 102) || (65 <= u && u <= 70);
            if !hex {
                return false;
            }
        }
        i += 1;
    }
    true
}

/// A valid dotted-quad part: decimal digits, no leading zero unless the
/// part is exactly `0`, value at most 255.
pub open spec fn valid_octet(s: Seq<char>) -> bool {
    s.len() > 0 && all_digits(s) && (s[0] != '0' || s.len() == 1) && dec_val(s) <= 255
}

/// The remaining text is `parts` valid octets separated by dots.
pub open spec fn ipv4_tail(s: Seq<char>, parts: int) -> bool
    decreases parts,
{
    let a = digits_run_len(s);
    if parts <= 1 {
        a == s.len() && valid_octet(s)
    } else {
        valid_octet(s.take(a)) && a < s.len() && s[a] == '.' && ipv4_tail(s.skip(a + 1), parts - 1)
    }
}

/// The strings `str::parse::<Ipv4Addr>` accepts: four valid dotted-quad
/// parts.
pub open spec fn is_ipv4_string(s: Seq<char>) -> bool {
    ipv4_tail(s, 4)
}

/// The value of the digit run of length `run` starting at `from`.
fn run_val(s: &str, len: usize, from: usize, run: usize) -> (v: u32)
    requires
        len == s@.len(),
        from + run <= len,
        run <= 3,
        forall|j: int| from <= j < from + run ==> is_digit(s@[j]),
    ensures
        v == dec_val(s@.skip(from as int).take(run as int)),
        v <= 999,
{
    let ghost sub = s@.skip(from as int).take(run as int);
    proof {
        lemma_pow10_small();
    }
    let mut acc: u32 = 0;
    let mut k: usize = 0;
    while k < run
        invariant
            len == s@.len(),
            from + run <= len,
            run <= 3,
            k <= run,
            sub == s@.skip(from as int).take(run as int),
            forall|j: int| from <= j < from + run ==> is_digit(s@[j]),
            all_digits(sub.take(k as int)),
            acc == dec_val(sub.take(k as int)),
            acc <= 999,
            pow10(3) == 1000,
        decreases run - k,
    {
        let c = s.get_char(from + k);
        let u = c as u32;
        proof {
            assert(sub[k as int] == s@[from + k]);
            assert(is_digit(s@[from + k]));
            assert(sub.take(k + 1).drop_last() =~= sub.take(k as int));
            assert(sub.take(k + 1).last() == sub[k as int]);
            assert(all_digits(sub.take(k as int)));
            lemma_dec_val_upper(sub.take(k as int));
            lemma_pow10_mono(k as nat, 2);
            lemma_pow10_small();
        }
        acc = acc * 10 + (u - 48);
        k += 1;
    }
    proof {
        assert(sub.take(run as int) =~= sub);
    }
    acc
}

/// Whether the string is a dotted-quad IPv4 address.
pub fn is_ipv4(s: &str) -> (r: bool)
    ensures
        r == is_ipv4_string(s@),
{
    let len = s.unicode_len();
    let mut at: usize = 0;
    let mut part: usize = 0;
    proof {
        assert(s@.skip(0) =~= s@);
    }
    loop
        invariant
            len == s@.len(),
            at <= len,
            part < 4,
            is_ipv4_string(s@) == ipv4_tail(s@.skip(at as int), 4 - part),
        decreases 4 - part,
    {
        let ghost rem = s@.skip(at as int);
        let run = digits_run(s, len, at);
        proof {
            assert(forall|j: int| 0 <= j < rem.len() ==> rem[j] == s@[at + j]);
            assert(digits_run_len(rem) == run);
        }
        // A valid part has one to three digits, no leading zero unless it
        // is the single digit zero, and a value of at most 255.
        if run == 0 {
            proof {
                if part < 3 {
                    assert(!valid_octet(rem.take(0)));
                } else {
                    assert(!valid_octet(rem));
                }
            }
            return false;
        }
        if run > 3 {
            proof {
                let oct = if part < 3 { rem.take(run as int) } else { rem };
                assert(forall|j: int| 0 <= j < run ==> is_digit(rem[j]));
                if part == 3 && run < rem.len() {
                    assert(!(digits_run_len(rem) == rem.len()));
                    assert(!ipv4_tail(rem, 1));
                } else {
                    assert(oct.len() >= run);
                    if oct[0] == '0' {
                        assert(!valid_octet(oct) || oct.len() == 1);
                    } else {
                        if part < 3 {
                            assert(all_digits(oct)) by {
                                assert(forall|j: int| 0 <= j < run ==> is_digit(oct[j]));
                            }
                            lemma_dec_val_lower(oct);
                            lemma_pow10_mono(3, (oct.len() - 1) as nat);
                            lemma_pow10_small();
                            assert(dec_val(oct) > 255);
                        } else {
                            if digits_run_len(rem) == rem.len() {
                                assert(all_digits(oct)) by {
                                    assert(forall|j: int| 0 <= j < oct.len() ==> is_digit(oct[j]));
                                }
                                lemma_dec_val_lower(oct);
                                lemma_pow10_mono(3, (oct.len() - 1) as nat);
                                lemma_pow10_small();
                                assert(dec_val(oct) > 255);
                            }
                        }
                    }
                }
            }
            return false;
        }
        let first = s.get_char(at);
        if run > 1 && first == '0' {
            proof {
                assert(rem[0] == s@[at as int]);
                let oct = if part < 3 { rem.take(run as int) } else { rem };
                if part == 3 {
                    if digits_run_len(rem) == rem.len() {
                        assert(!valid_octet(oct));
                    }
                } else {
                    assert(oct[0] == '0' && oct.len() > 1);
                }
            }
            return false;
        }
        let v = run_val(s, len, at, run);
        proof {
            assert(rem.take(run as int) =~= s@.skip(at as int).take(run as int));
        }
        if v > 255 {
            proof {
                let oct = if part < 3 { rem.take(run as int) } else { rem };
                if part == 3 {
                    if digits_run_len(rem) == rem.len() {
                        assert(rem.take(run as int) =~= rem);
                        assert(!valid_octet(oct));
                    }
                } else {
                    assert(!valid_octet(oct));
                }
            }
            return false;
        }
        if part == 3 {
            proof {
                if at + run == len {
                    assert(rem.take(run as int) =~= rem);
                    assert(valid_octet(rem));
                } else {
                    assert(digits_run_len(rem) != rem.len());
                }
            }
            return at + run == len;
        }
        if at + run == len {
            proof {
                assert(digits_run_len(rem) == rem.len());
                assert(!(digits_run_len(rem) < rem.len()));
            }
            return false;
        }
        let dot = s.get_char(at + run);
        if dot != '.' {
            proof {
                assert(rem[run as int] == s@[at + run]);
            }
            return false;
        }
        proof {
            assert(rem[run as int] == s@[at + run]);
            assert(valid_octet(rem.take(run as int)));
            assert(rem.skip(run + 1) =~= s@.skip(at + run + 1));
        }
        at = at + run + 1;
        part = part + 1;
    }
}

/// Parses a port number, exactly as `str::parse::<u16>` does.
pub fn parse_u16(s: &str) -> (r: Option<u16>)
    ensures
        r is Some <==> is_u64_string(s@) && int_val(s@) <= u16::MAX,
        r is Some ==> r.unwrap() == int_val(s@),
{
    match parse_u64(s) {
        Some(v) => if v <= 65535 {
            Some(v as u16)
        } else {
            None
        },
        None => None,
    }
}

/// Parses a signed 32-bit integer, exactly as `str::parse::<i32>` does.
pub fn parse_i32(s: &str) -> (r: Option<i32>)
    ensures
        r is Some <==> int_shape(s@) && i32::MIN <= int_val(s@) <= i32::MAX,
        r is Some ==> r.unwrap() == int_val(s@),
{
    match parse_i64(s) {
        Some(v) => if -2147483648i64 <= v && v <= 2147483647i64 {
            Some(v as i32)
        } else {
            None
        },
        None => None,
    }
}

} // verus!
