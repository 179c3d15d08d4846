//! The typed predicate requests, the usage errors of the resolver, and the
//! probe/evidence vocabulary between the library and its caller: the
//! library names the one observation a request needs, the caller performs
//! it and hands back the evidence, and the library decides the outcome.

use crate::classify::{int_val, is_f64_string, is_i64_string, is_u64_string};
use crate::files::{FileInfo, FileKind, GlobEntry};
use crate::CmpOp;
use vstd::prelude::*;

verus! {

/// The effective-credential access check a file-access predicate asks for.
#[derive(Clone, Copy, PartialEq, Eq, Structural, Debug)]
pub enum AccessMode {
    Read,
    Write,
    Execute,
}

/// A file predicate request.
pub enum FileReq {
    Exists { path: String },
    KindIs { path: String, kind: FileKind },
    Symlink { path: String },
    NonEmpty { path: String },
    SizeCmp { path: String, op: CmpOp, bytes: u64 },
    Access { path: String, mode: AccessMode },
    ModeBit { path: String, mask: u32 },
    OwnedByUser { path: String },
    OwnedByGroup { path: String },
    SameInode { a: String, b: String },
    NewerThan { a: String, b: String },
    OlderThan { a: String, b: String },
    ExistsGlob { pattern: String },
    NonEmptyGlob { pattern: String },
    MtimeOlderThan { path: String, seconds: u64 },
    MtimeNewerThan { path: String, seconds: u64 },
}

/// A string predicate request.
pub enum StrReq {
    Equal { a: String, b: String },
    NotEqual { a: String, b: String },
    Empty { s: String },
    NonEmpty { s: String },
    EqualCi { a: String, b: String },
    MatchesRegex { s: String, pattern: String },
    MatchesRegexCi { s: String, pattern: String },
    Contains { s: String, needle: String },
    ContainsCi { s: String, needle: String },
    StartsWith { s: String, prefix: String },
    StartsWithCi { s: String, prefix: String },
    EndsWith { s: String, suffix: String },
    EndsWithCi { s: String, suffix: String },
    IsInteger { s: String },
    IsNumber { s: String },
    IsUuid { s: String },
    IsIpv4 { s: String },
    AsciiOnly { s: String },
    LenCmp { s: String, op: CmpOp, n: u64 },
    AdviseQuote { value: String },
}

/// An integer predicate request.  The sign tests carry numeric text: they
/// compare as floating point, which happens outside the library.
pub enum IntReq {
    Cmp { op: CmpOp, a: i64, b: i64 },
    InRange { value: i64, min: i64, max: i64 },
    Positive { n: String },
    Negative { n: String },
}

/// A floating-point predicate request.  The operands are kept as the
/// numeric text the resolver validated; the comparison itself is floating
/// point and happens outside the library.
pub enum FloatReq {
    Cmp { op: CmpOp, a: String, b: String },
    InRange { min: String, max: String, value: String },
    ApproxEq { a: String, b: String, epsilon: String },
}

/// A semantic-version predicate request.
pub enum VerReq {
    Cmp { op: CmpOp, a: String, b: String },
}

/// An environment predicate request.
pub enum EnvReq {
    IsSet { name: String },
    EqualTo { name: String, value: String },
}

/// A network predicate request.
pub enum NetReq {
    Online,
    PortOpen { host: String, port: u16, timeout_ms: u64 },
}

/// A system predicate request.
pub enum SysReq {
    OsIs { name: String },
    CommandExists { command: String },
    ArchIs { name: String },
    Tty { fd: i32 },
}

/// One resolved predicate request.
pub enum Request {
    File(FileReq),
    Str(StrReq),
    Int(IntReq),
    Float(FloatReq),
    Version(VerReq),
    Env(EnvReq),
    Net(NetReq),
    Sys(SysReq),
}

/// What kind of value an argument failed to convert to.
#[derive(Clone, Copy, PartialEq, Eq, Structural, Debug)]
pub enum ArgKind {
    Integer,
    Unsigned,
    Port,
    Numeric,
    Descriptor,
}

/// A malformed invocation, reported with a distinct exit status rather
/// than folded into a predicate outcome.
pub enum UsageError {
    MissingCommand,
    UnknownFamily { word: String },
    MissingVerb { family: String },
    UnknownVerb { family: String, word: String },
    WrongArity { verb: String },
    BadArgument { verb: String, arg: String, expected: ArgKind },
}

/// The one observation a request needs from the outside world.
pub enum Probe {
    Nothing,
    Stat { path: String },
    LStat { path: String },
    Stat2 { a: String, b: String },
    Access { path: String, mode: AccessMode },
    Age { path: String },
    Glob { pattern: String },
    EnvRead { name: String },
    Connect { host: String, port: u16, timeout_ms: u64 },
    OsName,
    ArchName,
    Tty { fd: i32 },
    ExecSearch { command: String },
    FloatEval,
}

/// What the outside world answered to a probe.
pub enum Evidence {
    Nothing,
    Stat { info: Option<FileInfo>, euid: u32, egid: u32 },
    Stat2 { a: Option<FileInfo>, b: Option<FileInfo> },
    Truth { value: bool },
    Age { seconds: Option<u64> },
    Glob { matches: Option<Vec<GlobEntry>> },
    EnvVal { value: Option<String> },
    Text { value: String },
}

/// The verb of a plain relational operator.
pub open spec fn cmp_verb(op: CmpOp) -> Seq<char> {
    match op {
        CmpOp::Eq => "eq"@,
        CmpOp::Ne => "ne"@,
        CmpOp::Gt => "gt"@,
        CmpOp::Ge => "ge"@,
        CmpOp::Lt => "lt"@,
        CmpOp::Le => "le"@,
    }
}

/// The verb of a file-size comparison.
pub open spec fn size_verb(op: CmpOp) -> Seq<char> {
    match op {
        CmpOp::Eq => "size-eq"@,
        CmpOp::Ne => ""@,
        CmpOp::Gt => "size-gt"@,
        CmpOp::Ge => "size-ge"@,
        CmpOp::Lt => "size-lt"@,
        CmpOp::Le => "size-le"@,
    }
}

/// The verb of a string-length comparison.
pub open spec fn len_verb(op: CmpOp) -> Seq<char> {
    match op {
        CmpOp::Eq => "len-eq"@,
        CmpOp::Ne => ""@,
        CmpOp::Gt => "len-gt"@,
        CmpOp::Ge => "len-ge"@,
        CmpOp::Lt => "len-lt"@,
        CmpOp::Le => "len-le"@,
    }
}

/// The verb of a file-kind test.
pub open spec fn kind_verb(kind: FileKind) -> Seq<char> {
    match kind {
        FileKind::Directory => "directory"@,
        FileKind::Regular => "regular"@,
        FileKind::BlockDevice => "block-device"@,
        FileKind::CharDevice => "character-device"@,
        FileKind::Fifo => "named-pipe"@,
        FileKind::Socket => "socket"@,
        FileKind::Symlink => ""@,
        FileKind::Other => ""@,
    }
}

/// The verb of an access test.
pub open spec fn access_verb(mode: AccessMode) -> Seq<char> {
    match mode {
        AccessMode::Read => "readable"@,
        AccessMode::Write => "writable"@,
        AccessMode::Execute => "executable"@,
    }
}

/// The verb of a permission-bit test.
pub open spec fn bit_verb(mask: u32) -> Seq<char> {
    if mask == 0o4000u32 {
        "has-suid"@
    } else if mask == 0o2000u32 {
        "has-sgid"@
    } else if mask == 0o1000u32 {
        "has-sticky"@
    } else {
        ""@
    }
}

/// The request corresponds to the argument vector it was resolved from.
pub open spec fn req_matches(req: Request, vs: Seq<Seq<char>>) -> bool {
    match req {
        Request::File(fr) => vs.len() >= 1 && vs[0] == "file"@ && file_req_matches(fr, vs),
        Request::Str(sr) => vs.len() >= 1 && vs[0] == "string"@ && str_req_matches(sr, vs),
        Request::Int(ir) => vs.len() >= 1 && vs[0] == "int"@ && int_req_matches(ir, vs),
        Request::Float(fr) => vs.len() >= 1 && vs[0] == "float"@ && float_req_matches(fr, vs),
        Request::Version(vr) => vs.len() >= 1 && vs[0] == "semver"@ && ver_req_matches(vr, vs),
        Request::Env(er) => vs.len() >= 1 && vs[0] == "env"@ && env_req_matches(er, vs),
        Request::Net(nr) => vs.len() >= 1 && vs[0] == "net"@ && net_req_matches(nr, vs),
        Request::Sys(sr) => vs.len() >= 1 && vs[0] == "system"@ && sys_req_matches(sr, vs),
    }
}

pub open spec fn file_req_matches(fr: FileReq, vs: Seq<Seq<char>>) -> bool {
    match fr {
        FileReq::Exists { path } => vs.len() == 3 && vs[1] == "exists"@ && path@ == vs[2],
        FileReq::KindIs { path, kind } => vs.len() == 3 && vs[1] == kind_verb(kind) && path@
            == vs[2],
        FileReq::Symlink { path } => vs.len() == 3 && vs[1] == "symlink"@ && path@ == vs[2],
        FileReq::NonEmpty { path } => vs.len() == 3 && vs[1] == "non-empty"@ && path@ == vs[2],
        FileReq::SizeCmp { path, op, bytes } => vs.len() == 4 && vs[1] == size_verb(op) && path@
            == vs[2] && is_u64_string(vs[3]) && bytes == int_val(vs[3]),
        FileReq::Access { path, mode } => vs.len() == 3 && vs[1] == access_verb(mode) && path@
            == vs[2],
        FileReq::ModeBit { path, mask } => vs.len() == 3 && vs[1] == bit_verb(mask) && path@
            == vs[2] && (mask == 0o4000u32 || mask == 0o2000u32 || mask == 0o1000u32),
        FileReq::OwnedByUser { path } => vs.len() == 3 && vs[1] == "owned-by-effective-user"@
            && path@ == vs[2],
        FileReq::OwnedByGroup { path } => vs.len() == 3 && vs[1] == "owned-by-effective-group"@
            && path@ == vs[2],
        FileReq::SameInode { a, b } => vs.len() == 4 && vs[1] == "has-same-inode"@ && a@ == vs[2]
            && b@ == vs[3],
        FileReq::NewerThan { a, b } => vs.len() == 4 && vs[1] == "newer-than"@ && a@ == vs[2] && b@
            == vs[3],
        FileReq::OlderThan { a, b } => vs.len() == 4 && vs[1] == "older-than"@ && a@ == vs[2] && b@
            == vs[3],
        FileReq::ExistsGlob { pattern } => vs.len() == 3 && vs[1] == "exists-glob"@ && pattern@
            == vs[2],
        FileReq::NonEmptyGlob { pattern } => vs.len() == 3 && vs[1] == "non-empty-glob"@
            && pattern@ == vs[2],
        FileReq::MtimeOlderThan { path, seconds } => vs.len() == 4 && vs[1] == "mtime-older-than"@
            && path@ == vs[2] && is_u64_string(vs[3]) && seconds == int_val(vs[3]),
        FileReq::MtimeNewerThan { path, seconds } => vs.len() == 4 && vs[1] == "mtime-newer-than"@
            && path@ == vs[2] && is_u64_string(vs[3]) && seconds == int_val(vs[3]),
    }
}

pub open spec fn str_req_matches(sr: StrReq, vs: Seq<Seq<char>>) -> bool {
    match sr {
        StrReq::Equal { a, b } => vs.len() == 4 && vs[1] == "equal"@ && a@ == vs[2] && b@ == vs[3],
        StrReq::NotEqual { a, b } => vs.len() == 4 && vs[1] == "not-equals"@ && a@ == vs[2] && b@
            == vs[3],
        StrReq::Empty { s } => vs.len() == 3 && vs[1] == "empty"@ && s@ == vs[2],
        StrReq::NonEmpty { s } => vs.len() == 3 && vs[1] == "not-empty"@ && s@ == vs[2],
        StrReq::EqualCi { a, b } => vs.len() == 4 && vs[1] == "equal-ci"@ && a@ == vs[2] && b@
            == vs[3],
        StrReq::MatchesRegex { s, pattern } => vs.len() == 4 && vs[1] == "matches-regex"@ && s@
            == vs[2] && pattern@ == vs[3],
        StrReq::MatchesRegexCi { s, pattern } => vs.len() == 4 && vs[1] == "matches-regex-ci"@
            && s@ == vs[2] && pattern@ == vs[3],
        StrReq::Contains { s, needle } => vs.len() == 4 && vs[1] == "contains"@ && s@ == vs[2]
            && needle@ == vs[3],
        StrReq::ContainsCi { s, needle } => vs.len() == 4 && vs[1] == "contains-ci"@ && s@ == vs[2]
            && needle@ == vs[3],
        StrReq::StartsWith { s, prefix } => vs.len() == 4 && vs[1] == "starts-with"@ && s@ == vs[2]
            && prefix@ == vs[3],
        StrReq::StartsWithCi { s, prefix } => vs.len() == 4 && vs[1] == "starts-with-ci"@ && s@
            == vs[2] && prefix@ == vs[3],
        StrReq::EndsWith { s, suffix } => vs.len() == 4 && vs[1] == "ends-with"@ && s@ == vs[2]
            && suffix@ == vs[3],
        StrReq::EndsWithCi { s, suffix } => vs.len() == 4 && vs[1] == "ends-with-ci"@ && s@
            == vs[2] && suffix@ == vs[3],
        StrReq::IsInteger { s } => vs.len() == 3 && vs[1] == "integer"@ && s@ == vs[2],
        StrReq::IsNumber { s } => vs.len() == 3 && vs[1] == "number"@ && s@ == vs[2],
        StrReq::IsUuid { s } => vs.len() == 3 && vs[1] == "uuid"@ && s@ == vs[2],
        StrReq::IsIpv4 { s } => vs.len() == 3 && vs[1] == "ipv4"@ && s@ == vs[2],
        StrReq::AsciiOnly { s } => vs.len() == 3 && vs[1] == "ascii"@ && s@ == vs[2],
        StrReq::LenCmp { s, op, n } => vs.len() == 4 && vs[1] == len_verb(op) && s@ == vs[2]
            && is_u64_string(vs[3]) && n == int_val(vs[3]),
        StrReq::AdviseQuote { value } => vs.len() == 3 && vs[1] == "advise-quote"@ && value@
            == vs[2],
    }
}

pub open spec fn int_req_matches(ir: IntReq, vs: Seq<Seq<char>>) -> bool {
    match ir {
        IntReq::Cmp { op, a, b } => vs.len() == 4 && vs[1] == cmp_verb(op) && is_i64_string(vs[2])
            && a == int_val(vs[2]) && is_i64_string(vs[3]) && b == int_val(vs[3]),
        IntReq::InRange { value, min, max } => vs.len() == 5 && vs[1] == "in-range"@
            && is_i64_string(vs[2]) && value == int_val(vs[2]) && is_i64_string(vs[3]) && min
            == int_val(vs[3]) && is_i64_string(vs[4]) && max == int_val(vs[4]),
        IntReq::Positive { n } => vs.len() == 3 && vs[1] == "positive"@ && n@ == vs[2]
            && is_f64_string(vs[2]),
        IntReq::Negative { n } => vs.len() == 3 && vs[1] == "negative"@ && n@ == vs[2]
            && is_f64_string(vs[2]),
    }
}

pub open spec fn float_req_matches(fr: FloatReq, vs: Seq<Seq<char>>) -> bool {
    match fr {
        FloatReq::Cmp { op, a, b } => vs.len() == 4 && vs[1] == cmp_verb(op) && a@ == vs[2] && b@
            == vs[3] && is_f64_string(vs[2]) && is_f64_string(vs[3]),
        FloatReq::InRange { min, max, value } => vs.len() == 5 && vs[1] == "in-range"@ && min@
            == vs[2] && max@ == vs[3] && value@ == vs[4] && is_f64_string(vs[2]) && is_f64_string(
            vs[3],
        ) && is_f64_string(vs[4]),
        FloatReq::ApproxEq { a, b, epsilon } => vs.len() == 5 && vs[1] == "approx-eq"@ && a@
            == vs[2] && b@ == vs[3] && epsilon@ == vs[4] && is_f64_string(vs[2]) && is_f64_string(
            vs[3],
        ) && is_f64_string(vs[4]),
    }
}

pub open spec fn ver_req_matches(vr: VerReq, vs: Seq<Seq<char>>) -> bool {
    match vr {
        VerReq::Cmp { op, a, b } => vs.len() == 4 && vs[1] == cmp_verb(op) && a@ == vs[2] && b@
            == vs[3],
    }
}

pub open spec fn env_req_matches(er: EnvReq, vs: Seq<Seq<char>>) -> bool {
    match er {
        EnvReq::IsSet { name } => vs.len() == 3 && vs[1] == "set"@ && name@ == vs[2],
        EnvReq::EqualTo { name, value } => vs.len() == 4 && vs[1] == "equal-to"@ && name@ == vs[2]
            && value@ == vs[3],
    }
}

pub open spec fn net_req_matches(nr: NetReq, vs: Seq<Seq<char>>) -> bool {
    match nr {
        NetReq::Online => vs.len() == 2 && vs[1] == "online"@,
        NetReq::PortOpen { host, port, timeout_ms } => vs[1] == "port-open"@ && vs.len() >= 4
            && host@ == vs[2] && is_u64_string(vs[3]) && int_val(vs[3]) <= u16::MAX && port
            == int_val(vs[3]) && ((vs.len() == 4 && timeout_ms == 1000) || (vs.len() == 6 && vs[4]
            == "--timeout-ms"@ && is_u64_string(vs[5]) && timeout_ms == int_val(vs[5]))),
    }
}

pub open spec fn sys_req_matches(sr: SysReq, vs: Seq<Seq<char>>) -> bool {
    match sr {
        SysReq::OsIs { name } => vs.len() == 3 && vs[1] == "os"@ && name@ == vs[2],
        SysReq::CommandExists { command } => vs.len() == 3 && vs[1] == "command-exists"@
            && command@ == vs[2],
        SysReq::ArchIs { name } => vs.len() == 3 && vs[1] == "arch"@ && name@ == vs[2],
        SysReq::Tty { fd } => vs.len() == 3 && vs[1] == "fd-tty"@ && vs[2].len() > 0
            && crate::classify::int_shape(vs[2]) && i32::MIN <= int_val(vs[2]) <= i32::MAX && fd
            == int_val(vs[2]),
    }
}

} // verus!
