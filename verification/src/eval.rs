//! The predicate evaluator.  For each request the library names the one
//! observation it needs (`probe_for`), and reduces the request plus the
//! evidence that came back to an outcome (`decide`), a total function:
//! missing or mismatched evidence makes a predicate false, never an error.

use crate::classify::{is_f64_string, is_i64_string, is_ipv4_string, is_uuid_string};
use crate::files::{FileKind, GlobEntry};
use crate::paths::{expand_path, starts_tilde};
use crate::pattern::{matches_ci_spec, matches_spec};
use crate::request::{AccessMode, EnvReq, Evidence, FileReq, FloatReq, IntReq, NetReq, Probe, Request, StrReq, SysReq, VerReq};
use crate::strutil::{all_ascii, eq_ci_spec, has_prefix, has_substring, has_suffix, lowercase_of, needs_quote_spec};
use crate::version::semver_check;
use crate::{cmp_holds, Outcome};
use vstd::prelude::*;

verus! {

/// How a path handed to a probe relates to the one in the request: what
/// the tilde expansion guarantees.
pub open spec fn expansion_of(orig: Seq<char>, out: Seq<char>) -> bool {
    &&& (!starts_tilde(orig) ==> out == orig)
    &&& (orig.len() >= 2 && orig[0] == '~' && orig[1] != '/' ==> out == orig)
    &&& (starts_tilde(orig) && (orig.len() == 1 || orig[1] == '/') ==> out.len() >= orig.len() - 1
        && out.skip(out.len() - (orig.len() - 1)) == orig.skip(1))
}

/// The file predicate holds of the evidence.
pub open spec fn file_holds(fr: FileReq, ev: Evidence) -> bool {
    match fr {
        FileReq::Exists { .. } => ev matches Evidence::Stat { info, .. } && info is Some,
        FileReq::KindIs { kind, .. } => ev matches Evidence::Stat { info, .. } && info is Some
            && info.unwrap().kind == kind,
        FileReq::Symlink { .. } => ev matches Evidence::Stat { info, .. } && info is Some
            && info.unwrap().kind == FileKind::Symlink,
        FileReq::NonEmpty { .. } => ev matches Evidence::Stat { info, .. } && info is Some
            && info.unwrap().size > 0,
        FileReq::SizeCmp { op, bytes, .. } => ev matches Evidence::Stat { info, .. }
            && info is Some && cmp_holds(op, info.unwrap().size as int, bytes as int),
        FileReq::Access { .. } => ev matches Evidence::Truth { value } && value,
        FileReq::ModeBit { mask, .. } => ev matches Evidence::Stat { info, .. } && info is Some
            && info.unwrap().mode & mask != 0,
        FileReq::OwnedByUser { .. } => ev matches Evidence::Stat { info, euid, .. }
            && info is Some && info.unwrap().uid == euid,
        FileReq::OwnedByGroup { .. } => ev matches Evidence::Stat { info, egid, .. }
            && info is Some && info.unwrap().gid == egid,
        FileReq::SameInode { .. } => ev matches Evidence::Stat2 { a, b } && a is Some && b is Some
            && a.unwrap().dev == b.unwrap().dev && a.unwrap().ino == b.unwrap().ino,
        FileReq::NewerThan { .. } => ev matches Evidence::Stat2 { a, b } && a is Some && b is Some
            && crate::files::mtime_after(a.unwrap(), b.unwrap()),
        FileReq::OlderThan { .. } => ev matches Evidence::Stat2 { a, b } && a is Some && b is Some
            && crate::files::mtime_after(b.unwrap(), a.unwrap()),
        FileReq::ExistsGlob { .. } => ev matches Evidence::Glob { matches } && matches is Some
            && (exists|i: int| 0 <= i < matches.unwrap()@.len() && matches.unwrap()@[i].exists),
        FileReq::NonEmptyGlob { .. } => ev matches Evidence::Glob { matches } && matches is Some
            && (exists|i: int|
            0 <= i < matches.unwrap()@.len() && matches.unwrap()@[i].size is Some
                && matches.unwrap()@[i].size.unwrap() > 0),
        FileReq::MtimeOlderThan { seconds, .. } => ev matches Evidence::Age { seconds: age }
            && age is Some && age.unwrap() > seconds,
        FileReq::MtimeNewerThan { seconds, .. } => ev matches Evidence::Age { seconds: age }
            && age is Some && age.unwrap() < seconds,
    }
}

/// The string predicate holds; string predicates consult no evidence.
pub open spec fn str_holds(sr: StrReq) -> bool {
    match sr {
        StrReq::Equal { a, b } => a@ == b@,
        StrReq::NotEqual { a, b } => a@ != b@,
        StrReq::Empty { s } => s@.len() == 0,
        StrReq::NonEmpty { s } => s@.len() > 0,
        StrReq::EqualCi { a, b } => eq_ci_spec(a@, b@),
        StrReq::MatchesRegex { s, pattern } => matches_spec(s@, pattern@),
        StrReq::MatchesRegexCi { s, pattern } => matches_ci_spec(s@, pattern@),
        StrReq::Contains { s, needle } => has_substring(s@, needle@),
        StrReq::ContainsCi { s, needle } => has_substring(lowercase_of(s@), lowercase_of(needle@)),
        StrReq::StartsWith { s, prefix } => has_prefix(s@, prefix@),
        StrReq::StartsWithCi { s, prefix } => has_prefix(lowercase_of(s@), lowercase_of(prefix@)),
        StrReq::EndsWith { s, suffix } => has_suffix(s@, suffix@),
        StrReq::EndsWithCi { s, suffix } => has_suffix(lowercase_of(s@), lowercase_of(suffix@)),
        StrReq::IsInteger { s } => is_i64_string(s@),
        StrReq::IsNumber { s } => is_f64_string(s@),
        StrReq::IsUuid { s } => is_uuid_string(s@),
        StrReq::IsIpv4 { s } => is_ipv4_string(s@),
        StrReq::AsciiOnly { s } => all_ascii(s@),
        StrReq::LenCmp { s, op, n } => cmp_holds(op, s@.len() as int, n as int),
        StrReq::AdviseQuote { value } => !needs_quote_spec(value@),
    }
}

/// The integer predicate holds; the sign tests are decided outside as
/// floating-point comparisons and hand back their truth.
pub open spec fn int_holds(ir: IntReq, ev: Evidence) -> bool {
    match ir {
        IntReq::Cmp { op, a, b } => cmp_holds(op, a as int, b as int),
        IntReq::InRange { value, min, max } => min <= value && value <= max,
        IntReq::Positive { .. } => ev matches Evidence::Truth { value } && value,
        IntReq::Negative { .. } => ev matches Evidence::Truth { value } && value,
    }
}

/// The environment predicate holds of the looked-up value.  A variable
/// that is defined but empty counts as unset.
pub open spec fn env_holds(er: EnvReq, ev: Evidence) -> bool {
    match er {
        EnvReq::IsSet { .. } => ev matches Evidence::EnvVal { value } && value is Some
            && value.unwrap()@.len() > 0,
        EnvReq::EqualTo { value: expected, .. } => ev matches Evidence::EnvVal { value }
            && value is Some && value.unwrap()@ == expected@,
    }
}

/// The system predicate holds of the evidence.
pub open spec fn sys_holds(sr: SysReq, ev: Evidence) -> bool {
    match sr {
        SysReq::OsIs { name } => ev matches Evidence::Text { value } && eq_ci_spec(value@, name@),
        SysReq::ArchIs { name } => ev matches Evidence::Text { value } && eq_ci_spec(
            value@,
            name@,
        ),
        SysReq::CommandExists { .. } => ev matches Evidence::Truth { value } && value,
        SysReq::Tty { .. } => ev matches Evidence::Truth { value } && value,
    }
}

/// The predicate request holds of the evidence the outside world handed
/// back.
pub open spec fn outcome_holds(req: Request, ev: Evidence) -> bool {
    match req {
        Request::File(fr) => file_holds(fr, ev),
        Request::Str(sr) => str_holds(sr),
        Request::Int(ir) => int_holds(ir, ev),
        Request::Float(_) => ev matches Evidence::Truth { value } && value,
        Request::Version(vr) => match vr {
            VerReq::Cmp { op, a, b } => semver_check(op, a@, b@),
        },
        Request::Env(er) => env_holds(er, ev),
        Request::Net(_) => ev matches Evidence::Truth { value } && value,
        Request::Sys(sr) => sys_holds(sr, ev),
    }
}

/// The diagnostic line a request carries beside its outcome: only the
/// quoting advisory emits one, when it fails.
pub open spec fn advice_note_spec(req: Request) -> Option<Seq<char>> {
    match req {
        Request::Str(StrReq::AdviseQuote { value }) => if needs_quote_spec(value@) {
            Some(
                "Value '"@ + value@
                    + "' may need quoting. Consider using \"$VAR\" in your shell."@,
            )
        } else {
            Option::None
        },
        _ => Option::None,
    }
}

fn decide_file(fr: &FileReq, ev: &Evidence) -> (r: bool)
    ensures
        r == file_holds(*fr, *ev),
{
    match fr {
        FileReq::Exists { .. } => match ev {
            Evidence::Stat { info, .. } => crate::files::was_observed(info),
            _ => false,
        },
        FileReq::KindIs { kind, .. } => match ev {
            Evidence::Stat { info, .. } => crate::files::kind_is(info, *kind),
            _ => false,
        },
        FileReq::Symlink { .. } => match ev {
            Evidence::Stat { info, .. } => crate::files::kind_is(info, FileKind::Symlink),
            _ => false,
        },
        FileReq::NonEmpty { .. } => match ev {
            Evidence::Stat { info, .. } => crate::files::non_empty(info),
            _ => false,
        },
        FileReq::SizeCmp { op, bytes, .. } => match ev {
            Evidence::Stat { info, .. } => crate::files::size_cmp(info, *op, *bytes),
            _ => false,
        },
        FileReq::Access { .. } => match ev {
            Evidence::Truth { value } => *value,
            _ => false,
        },
        FileReq::ModeBit { mask, .. } => match ev {
            Evidence::Stat { info, .. } => crate::files::has_mode_bit(info, *mask),
            _ => false,
        },
        FileReq::OwnedByUser { .. } => match ev {
            Evidence::Stat { info, euid, .. } => crate::files::owned_by_uid(info, *euid),
            _ => false,
        },
        FileReq::OwnedByGroup { .. } => match ev {
            Evidence::Stat { info, egid, .. } => crate::files::owned_by_gid(info, *egid),
            _ => false,
        },
        FileReq::SameInode { .. } => match ev {
            Evidence::Stat2 { a, b } => crate::files::same_inode(a, b),
            _ => false,
        },
        FileReq::NewerThan { .. } => match ev {
            Evidence::Stat2 { a, b } => crate::files::newer_than(a, b),
            _ => false,
        },
        FileReq::OlderThan { .. } => match ev {
            Evidence::Stat2 { a, b } => crate::files::older_than(a, b),
            _ => false,
        },
        FileReq::ExistsGlob { .. } => match ev {
            Evidence::Glob { matches } => crate::files::exists_glob_outcome(matches),
            _ => false,
        },
        FileReq::NonEmptyGlob { .. } => match ev {
            Evidence::Glob { matches } => crate::files::non_empty_glob_outcome(matches),
            _ => false,
        },
        FileReq::MtimeOlderThan { seconds, .. } => match ev {
            Evidence::Age { seconds: age } => crate::files::age_older_than(age, *seconds),
            _ => false,
        },
        FileReq::MtimeNewerThan { seconds, .. } => match ev {
            Evidence::Age { seconds: age } => crate::files::age_newer_than(age, *seconds),
            _ => false,
        },
    }
}

fn decide_str(sr: &StrReq) -> (r: bool)
    ensures
        r == str_holds(*sr),
{
    match sr {
        StrReq::Equal { a, b } => crate::strutil::str_eq(a.as_str(), b.as_str()),
        StrReq::NotEqual { a, b } => !crate::strutil::str_eq(a.as_str(), b.as_str()),
        StrReq::Empty { s } => s.as_str().unicode_len() == 0,
        StrReq::NonEmpty { s } => s.as_str().unicode_len() > 0,
        StrReq::EqualCi { a, b } => crate::strutil::eq_ci(a.as_str(), b.as_str()),
        StrReq::MatchesRegex { s, pattern } => crate::pattern::matches_regex(
            s.as_str(),
            pattern.as_str(),
        ),
        StrReq::MatchesRegexCi { s, pattern } => crate::pattern::matches_regex_ci(
            s.as_str(),
            pattern.as_str(),
        ),
        StrReq::Contains { s, needle } => crate::strutil::contains(s.as_str(), needle.as_str()),
        StrReq::ContainsCi { s, needle } => crate::strutil::contains_ci(
            s.as_str(),
            needle.as_str(),
        ),
        StrReq::StartsWith { s, prefix } => crate::strutil::starts_with(
            s.as_str(),
            prefix.as_str(),
        ),
        StrReq::StartsWithCi { s, prefix } => crate::strutil::starts_with_ci(
            s.as_str(),
            prefix.as_str(),
        ),
        StrReq::EndsWith { s, suffix } => crate::strutil::ends_with(s.as_str(), suffix.as_str()),
        StrReq::EndsWithCi { s, suffix } => crate::strutil::ends_with_ci(
            s.as_str(),
            suffix.as_str(),
        ),
        StrReq::IsInteger { s } => crate::classify::is_integer(s.as_str()),
        StrReq::IsNumber { s } => crate::classify::is_number(s.as_str()),
        StrReq::IsUuid { s } => crate::classify::is_uuid(s.as_str()),
        StrReq::IsIpv4 { s } => crate::classify::is_ipv4(s.as_str()),
        StrReq::AsciiOnly { s } => crate::strutil::ascii_only(s.as_str()),
        StrReq::LenCmp { s, op, n } => {
            let len = s.as_str().unicode_len() as u64;
            crate::cmp_u64(*op, len, *n)
        },
        StrReq::AdviseQuote { value } => {
            let note = crate::strutil::quote_advice(value.as_str());
            note.is_none()
        },
    }
}

/// Reduces a request and the evidence to a predicate outcome, together
/// with the diagnostic line of the quoting advisory when it applies.  The
/// decision is total: evidence of the wrong shape makes the predicate
/// false.
pub fn decide(req: &Request, ev: &Evidence) -> (r: (Outcome, Option<String>))
    ensures
        (r.0 == Outcome::True) <==> outcome_holds(*req, *ev),
        (r.1 is Some) <==> (advice_note_spec(*req) is Some),
        (r.1 matches Some(m) ==> m@ == advice_note_spec(*req).unwrap()),
{
    let truth: bool = match req {
        Request::File(fr) => decide_file(fr, ev),
        Request::Str(sr) => decide_str(sr),
        Request::Int(ir) => match ir {
            IntReq::Cmp { op, a, b } => crate::cmp_i64(*op, *a, *b),
            IntReq::InRange { value, min, max } => *min <= *value && *value <= *max,
            IntReq::Positive { .. } => match ev {
                Evidence::Truth { value } => *value,
                _ => false,
            },
            IntReq::Negative { .. } => match ev {
                Evidence::Truth { value } => *value,
                _ => false,
            },
        },
        Request::Float(_) => match ev {
            Evidence::Truth { value } => *value,
            _ => false,
        },
        Request::Version(vr) => match vr {
            VerReq::Cmp { op, a, b } => crate::version::semver_compare(*op, a.as_str(), b.as_str()),
        },
        Request::Env(er) => match er {
            EnvReq::IsSet { .. } => match ev {
                Evidence::EnvVal { value } => match value {
                    Some(v) => v.as_str().unicode_len() > 0,
                    None => false,
                },
                _ => false,
            },
            EnvReq::EqualTo { value: expected, .. } => match ev {
                Evidence::EnvVal { value } => match value {
                    Some(v) => crate::strutil::str_eq(v.as_str(), expected.as_str()),
                    None => false,
                },
                _ => false,
            },
        },
        Request::Net(_) => match ev {
            Evidence::Truth { value } => *value,
            _ => false,
        },
        Request::Sys(sr) => match sr {
            SysReq::OsIs { name } => match ev {
                Evidence::Text { value } => crate::strutil::eq_ci(value.as_str(), name.as_str()),
                _ => false,
            },
            SysReq::ArchIs { name } => match ev {
                Evidence::Text { value } => crate::strutil::eq_ci(value.as_str(), name.as_str()),
                _ => false,
            },
            SysReq::CommandExists { .. } => match ev {
                Evidence::Truth { value } => *value,
                _ => false,
            },
            SysReq::Tty { .. } => match ev {
                Evidence::Truth { value } => *value,
                _ => false,
            },
        },
    };
    let note: Option<String> = match req {
        Request::Str(StrReq::AdviseQuote { value }) => crate::strutil::quote_advice(
            value.as_str(),
        ),
        _ => Option::None,
    };
    let outcome = if truth {
        Outcome::True
    } else {
        Outcome::False
    };
    (outcome, note)
}

/// The probe fits the request: the right kind of observation, on the
/// tilde-expanded paths and the request's own operands.
pub open spec fn probe_matches(req: Request, pr: Probe) -> bool {
    match req {
        Request::File(fr) => match fr {
            FileReq::Exists { path } => pr matches Probe::Stat { path: q } && expansion_of(
                path@,
                q@,
            ),
            FileReq::KindIs { path, .. } => pr matches Probe::Stat { path: q } && expansion_of(
                path@,
                q@,
            ),
            FileReq::Symlink { path } => pr matches Probe::LStat { path: q } && expansion_of(
                path@,
                q@,
            ),
            FileReq::NonEmpty { path } => pr matches Probe::Stat { path: q } && expansion_of(
                path@,
                q@,
            ),
            FileReq::SizeCmp { path, .. } => pr matches Probe::Stat { path: q } && expansion_of(
                path@,
                q@,
            ),
            FileReq::Access { path, mode } => pr matches Probe::Access { path: q, mode: m }
                && expansion_of(path@, q@) && m == mode,
            FileReq::ModeBit { path, .. } => pr matches Probe::Stat { path: q } && expansion_of(
                path@,
                q@,
            ),
            FileReq::OwnedByUser { path } => pr matches Probe::Stat { path: q } && expansion_of(
                path@,
                q@,
            ),
            FileReq::OwnedByGroup { path } => pr matches Probe::Stat { path: q } && expansion_of(
                path@,
                q@,
            ),
            FileReq::SameInode { a, b } => pr matches Probe::Stat2 { a: qa, b: qb }
                && expansion_of(a@, qa@) && expansion_of(b@, qb@),
            FileReq::NewerThan { a, b } => pr matches Probe::Stat2 { a: qa, b: qb }
                && expansion_of(a@, qa@) && expansion_of(b@, qb@),
            FileReq::OlderThan { a, b } => pr matches Probe::Stat2 { a: qa, b: qb }
                && expansion_of(a@, qa@) && expansion_of(b@, qb@),
            FileReq::ExistsGlob { pattern } => pr matches Probe::Glob { pattern: q }
                && expansion_of(pattern@, q@),
            FileReq::NonEmptyGlob { pattern } => pr matches Probe::Glob { pattern: q }
                && expansion_of(pattern@, q@),
            FileReq::MtimeOlderThan { path, .. } => pr matches Probe::Age { path: q }
                && expansion_of(path@, q@),
            FileReq::MtimeNewerThan { path, .. } => pr matches Probe::Age { path: q }
                && expansion_of(path@, q@),
        },
        Request::Str(_) => pr matches Probe::Nothing,
        Request::Int(ir) => match ir {
            IntReq::Cmp { .. } => pr matches Probe::Nothing,
            IntReq::InRange { .. } => pr matches Probe::Nothing,
            IntReq::Positive { .. } => pr matches Probe::FloatEval,
            IntReq::Negative { .. } => pr matches Probe::FloatEval,
        },
        Request::Float(_) => pr matches Probe::FloatEval,
        Request::Version(_) => pr matches Probe::Nothing,
        Request::Env(er) => match er {
            EnvReq::IsSet { name } => pr matches Probe::EnvRead { name: q } && q@ == name@,
            EnvReq::EqualTo { name, .. } => pr matches Probe::EnvRead { name: q } && q@ == name@,
        },
        Request::Net(nr) => match nr {
            NetReq::Online => pr matches Probe::Connect { host, port, timeout_ms } && host@
                == "1.1.1.1"@ && port == 53u16 && timeout_ms == 800u64,
            NetReq::PortOpen { host, port, timeout_ms } => pr matches Probe::Connect {
                host: qh,
                port: qp,
                timeout_ms: qt,
            } && qh@ == host@ && qp == port && qt == timeout_ms,
        },
        Request::Sys(sr) => match sr {
            SysReq::OsIs { .. } => pr matches Probe::OsName,
            SysReq::ArchIs { .. } => pr matches Probe::ArchName,
            SysReq::CommandExists { command } => pr matches Probe::ExecSearch { command: c } && c@
                == command@,
            SysReq::Tty { fd } => pr matches Probe::Tty { fd: f } && f == fd,
        },
    }
}

/// Names the one observation a request needs, with every path already
/// tilde-expanded.
pub fn probe_for(req: &Request) -> (r: Probe)
    ensures
        probe_matches(*req, r),
{
    match req {
        Request::File(fr) => match fr {
            FileReq::Exists { path } => Probe::Stat { path: expand_path(path.as_str()) },
            FileReq::KindIs { path, .. } => Probe::Stat { path: expand_path(path.as_str()) },
            FileReq::Symlink { path } => Probe::LStat { path: expand_path(path.as_str()) },
            FileReq::NonEmpty { path } => Probe::Stat { path: expand_path(path.as_str()) },
            FileReq::SizeCmp { path, .. } => Probe::Stat { path: expand_path(path.as_str()) },
            FileReq::Access { path, mode } => Probe::Access {
                path: expand_path(path.as_str()),
                mode: *mode,
            },
            FileReq::ModeBit { path, .. } => Probe::Stat { path: expand_path(path.as_str()) },
            FileReq::OwnedByUser { path } => Probe::Stat { path: expand_path(path.as_str()) },
            FileReq::OwnedByGroup { path } => Probe::Stat { path: expand_path(path.as_str()) },
            FileReq::SameInode { a, b } => Probe::Stat2 {
                a: expand_path(a.as_str()),
                b: expand_path(b.as_str()),
            },
            FileReq::NewerThan { a, b } => Probe::Stat2 {
                a: expand_path(a.as_str()),
                b: expand_path(b.as_str()),
            },
            FileReq::OlderThan { a, b } => Probe::Stat2 {
                a: expand_path(a.as_str()),
                b: expand_path(b.as_str()),
            },
            FileReq::ExistsGlob { pattern } => Probe::Glob {
                pattern: expand_path(pattern.as_str()),
            },
            FileReq::NonEmptyGlob { pattern } => Probe::Glob {
                pattern: expand_path(pattern.as_str()),
            },
            FileReq::MtimeOlderThan { path, .. } => Probe::Age { path: expand_path(path.as_str()) },
            FileReq::MtimeNewerThan { path, .. } => Probe::Age { path: expand_path(path.as_str()) },
        },
        Request::Str(_) => Probe::Nothing,
        Request::Int(ir) => match ir {
            IntReq::Cmp { .. } => Probe::Nothing,
            IntReq::InRange { .. } => Probe::Nothing,
            IntReq::Positive { .. } => Probe::FloatEval,
            IntReq::Negative { .. } => Probe::FloatEval,
        },
        Request::Float(_) => Probe::FloatEval,
        Request::Version(_) => Probe::Nothing,
        Request::Env(er) => match er {
            EnvReq::IsSet { name } => Probe::EnvRead { name: name.clone() },
            EnvReq::EqualTo { name, .. } => Probe::EnvRead { name: name.clone() },
        },
        Request::Net(nr) => match nr {
            NetReq::Online => Probe::Connect {
                host: String::from_str("1.1.1.1"),
                port: 53,
                timeout_ms: 800,
            },
            NetReq::PortOpen { host, port, timeout_ms } => Probe::Connect {
                host: host.clone(),
                port: *port,
                timeout_ms: *timeout_ms,
            },
        },
        Request::Sys(sr) => match sr {
            SysReq::OsIs { .. } => Probe::OsName,
            SysReq::ArchIs { .. } => Probe::ArchName,
            SysReq::CommandExists { command } => Probe::ExecSearch { command: command.clone() },
            SysReq::Tty { fd } => Probe::Tty { fd: *fd },
        },
    }
}

/// The string, plain integer and version predicates consult no evidence:
/// their outcome is a function of the request alone.
pub proof fn lemma_pure_requests_ignore_evidence(req: Request, ev1: Evidence, ev2: Evidence)
    requires
        req matches Request::Str(_) || req matches Request::Version(_) || req matches Request::Int(
            IntReq::Cmp { .. },
        ) || req matches Request::Int(IntReq::InRange { .. }),
    ensures
        outcome_holds(req, ev1) == outcome_holds(req, ev2),
{
}

/// Evaluation is deterministic: two outcomes decided from the same request
/// and the same evidence are the same outcome, so repeating an invocation
/// with identical arguments and unchanged external state repeats its
/// result.
pub proof fn lemma_decide_deterministic(req: Request, ev: Evidence, r1: Outcome, r2: Outcome)
    requires
        (r1 == Outcome::True) <==> outcome_holds(req, ev),
        (r2 == Outcome::True) <==> outcome_holds(req, ev),
    ensures
        r1 == r2,
{
    match r1 {
        Outcome::True => {},
        Outcome::False => {},
    }
    match r2 {
        Outcome::True => {},
        Outcome::False => {},
    }
}

} // verus!
