//! The command resolver: a total, side-effect-free mapping from the raw
//! argument vector (family verb, leaf verb, arguments) to one typed
//! predicate request, or to a usage error naming the unknown word or the
//! argument that failed to convert.

use crate::classify::{int_shape, int_val, is_f64_string, is_i64_string, is_u64_string, parse_i32, parse_i64, parse_u16, parse_u64};
use crate::files::FileKind;
use crate::request::{AccessMode, ArgKind, EnvReq, FileReq, FloatReq, IntReq, NetReq, Request, StrReq, SysReq, UsageError, VerReq, req_matches, cmp_verb};
use crate::strutil::str_eq;
use crate::CmpOp;
use vstd::prelude::*;

verus! {

/// The family words the resolver knows.
pub open spec fn known_family(w: Seq<char>) -> bool {
    w == "file"@ || w == "string"@ || w == "int"@ || w == "float"@ || w == "semver"@ || w == "env"@
        || w == "net"@ || w == "system"@
}

/// The file-family verbs.
pub open spec fn file_verb(w: Seq<char>) -> bool {
    w == "exists"@ || w == "directory"@ || w == "regular"@ || w == "symlink"@ || w
        == "block-device"@ || w == "character-device"@ || w == "named-pipe"@ || w == "socket"@ || w
        == "non-empty"@ || w == "readable"@ || w == "writable"@ || w == "executable"@ || w
        == "has-suid"@ || w == "has-sgid"@ || w == "has-sticky"@ || w == "owned-by-effective-user"@
        || w == "owned-by-effective-group"@ || w == "has-same-inode"@ || w == "newer-than"@ || w
        == "older-than"@ || w == "exists-glob"@ || w == "non-empty-glob"@ || w == "size-gt"@ || w
        == "size-ge"@ || w == "size-lt"@ || w == "size-le"@ || w == "size-eq"@ || w
        == "mtime-older-than"@ || w == "mtime-newer-than"@
}

/// A file verb that takes one path.
pub open spec fn file_one_path_verb(w: Seq<char>) -> bool {
    w == "exists"@ || w == "directory"@ || w == "regular"@ || w == "symlink"@ || w
        == "block-device"@ || w == "character-device"@ || w == "named-pipe"@ || w == "socket"@ || w
        == "non-empty"@ || w == "readable"@ || w == "writable"@ || w == "executable"@ || w
        == "has-suid"@ || w == "has-sgid"@ || w == "has-sticky"@ || w == "owned-by-effective-user"@
        || w == "owned-by-effective-group"@ || w == "exists-glob"@ || w == "non-empty-glob"@
}

/// A file verb that takes two paths.
pub open spec fn file_two_path_verb(w: Seq<char>) -> bool {
    w == "has-same-inode"@ || w == "newer-than"@ || w == "older-than"@
}

/// A file verb that takes a path and an unsigned count.
pub open spec fn file_count_verb(w: Seq<char>) -> bool {
    w == "size-gt"@ || w == "size-ge"@ || w == "size-lt"@ || w == "size-le"@ || w == "size-eq"@
        || w == "mtime-older-than"@ || w == "mtime-newer-than"@
}

/// Well-formed file-family arguments.
pub open spec fn file_args_wf(vs: Seq<Seq<char>>) -> bool {
    vs.len() >= 2 && {
        if file_one_path_verb(vs[1]) {
            vs.len() == 3
        } else if file_two_path_verb(vs[1]) {
            vs.len() == 4
        } else if file_count_verb(vs[1]) {
            vs.len() == 4 && is_u64_string(vs[3])
        } else {
            false
        }
    }
}

/// The file-family argument counts, by verb.
pub open spec fn file_arity_ok(vs: Seq<Seq<char>>) -> bool {
    vs.len() >= 2 && {
        if file_one_path_verb(vs[1]) {
            vs.len() == 3
        } else if file_two_path_verb(vs[1]) {
            vs.len() == 4
        } else if file_count_verb(vs[1]) {
            vs.len() == 4
        } else {
            false
        }
    }
}

/// The string-family verbs.
pub open spec fn str_verb(w: Seq<char>) -> bool {
    w == "equal"@ || w == "not-equals"@ || w == "empty"@ || w == "not-empty"@ || w == "equal-ci"@
        || w == "matches-regex"@ || w == "matches-regex-ci"@ || w == "contains"@ || w
        == "contains-ci"@ || w == "starts-with"@ || w == "starts-with-ci"@ || w == "ends-with"@
        || w == "ends-with-ci"@ || w == "integer"@ || w == "number"@ || w == "uuid"@ || w
        == "ipv4"@ || w == "ascii"@ || w == "len-gt"@ || w == "len-ge"@ || w == "len-lt"@ || w
        == "len-le"@ || w == "len-eq"@ || w == "advise-quote"@
}

/// A string verb that takes one operand.
pub open spec fn str_one_arg_verb(w: Seq<char>) -> bool {
    w == "empty"@ || w == "not-empty"@ || w == "integer"@ || w == "number"@ || w == "uuid"@ || w
        == "ipv4"@ || w == "ascii"@ || w == "advise-quote"@
}

/// A string verb that takes two operands.
pub open spec fn str_two_arg_verb(w: Seq<char>) -> bool {
    w == "equal"@ || w == "not-equals"@ || w == "equal-ci"@ || w == "matches-regex"@ || w
        == "matches-regex-ci"@ || w == "contains"@ || w == "contains-ci"@ || w == "starts-with"@
        || w == "starts-with-ci"@ || w == "ends-with"@ || w == "ends-with-ci"@
}

/// A string verb that takes an operand and an unsigned count.
pub open spec fn str_count_verb(w: Seq<char>) -> bool {
    w == "len-gt"@ || w == "len-ge"@ || w == "len-lt"@ || w == "len-le"@ || w == "len-eq"@
}

/// Well-formed string-family arguments.
pub open spec fn str_args_wf(vs: Seq<Seq<char>>) -> bool {
    vs.len() >= 2 && {
        if str_one_arg_verb(vs[1]) {
            vs.len() == 3
        } else if str_two_arg_verb(vs[1]) {
            vs.len() == 4
        } else if str_count_verb(vs[1]) {
            vs.len() == 4 && is_u64_string(vs[3])
        } else {
            false
        }
    }
}

/// The string-family argument counts, by verb.
pub open spec fn str_arity_ok(vs: Seq<Seq<char>>) -> bool {
    vs.len() >= 2 && {
        if str_one_arg_verb(vs[1]) {
            vs.len() == 3
        } else if str_two_arg_verb(vs[1]) {
            vs.len() == 4
        } else if str_count_verb(vs[1]) {
            vs.len() == 4
        } else {
            false
        }
    }
}

/// The integer-family verbs.
pub open spec fn int_verb(w: Seq<char>) -> bool {
    w == "eq"@ || w == "ne"@ || w == "gt"@ || w == "ge"@ || w == "lt"@ || w == "le"@ || w
        == "in-range"@ || w == "positive"@ || w == "negative"@
}

/// Well-formed integer-family arguments.
pub open spec fn int_args_wf(vs: Seq<Seq<char>>) -> bool {
    vs.len() >= 2 && {
        if vs[1] == "eq"@ || vs[1] == "ne"@ || vs[1] == "gt"@ || vs[1] == "ge"@ || vs[1] == "lt"@
            || vs[1] == "le"@ {
            vs.len() == 4 && is_i64_string(vs[2]) && is_i64_string(vs[3])
        } else if vs[1] == "in-range"@ {
            vs.len() == 5 && is_i64_string(vs[2]) && is_i64_string(vs[3]) && is_i64_string(vs[4])
        } else if vs[1] == "positive"@ || vs[1] == "negative"@ {
            vs.len() == 3 && is_f64_string(vs[2])
        } else {
            false
        }
    }
}

/// The integer-family argument counts, by verb.
pub open spec fn int_arity_ok(vs: Seq<Seq<char>>) -> bool {
    vs.len() >= 2 && {
        if vs[1] == "eq"@ || vs[1] == "ne"@ || vs[1] == "gt"@ || vs[1] == "ge"@ || vs[1] == "lt"@
            || vs[1] == "le"@ {
            vs.len() == 4
        } else if vs[1] == "in-range"@ {
            vs.len() == 5
        } else if vs[1] == "positive"@ || vs[1] == "negative"@ {
            vs.len() == 3
        } else {
            false
        }
    }
}

/// The float-family verbs.
pub open spec fn float_verb(w: Seq<char>) -> bool {
    w == "eq"@ || w == "ne"@ || w == "gt"@ || w == "ge"@ || w == "lt"@ || w == "le"@ || w
        == "in-range"@ || w == "approx-eq"@
}

/// Well-formed float-family arguments.
pub open spec fn float_args_wf(vs: Seq<Seq<char>>) -> bool {
    vs.len() >= 2 && {
        if vs[1] == "eq"@ || vs[1] == "ne"@ || vs[1] == "gt"@ || vs[1] == "ge"@ || vs[1] == "lt"@
            || vs[1] == "le"@ {
            vs.len() == 4 && is_f64_string(vs[2]) && is_f64_string(vs[3])
        } else if vs[1] == "in-range"@ || vs[1] == "approx-eq"@ {
            vs.len() == 5 && is_f64_string(vs[2]) && is_f64_string(vs[3]) && is_f64_string(vs[4])
        } else {
            false
        }
    }
}

/// The float-family argument counts, by verb.
pub open spec fn float_arity_ok(vs: Seq<Seq<char>>) -> bool {
    vs.len() >= 2 && {
        if vs[1] == "eq"@ || vs[1] == "ne"@ || vs[1] == "gt"@ || vs[1] == "ge"@ || vs[1] == "lt"@
            || vs[1] == "le"@ {
            vs.len() == 4
        } else if vs[1] == "in-range"@ || vs[1] == "approx-eq"@ {
            vs.len() == 5
        } else {
            false
        }
    }
}

/// The version-family verbs.
pub open spec fn ver_verb(w: Seq<char>) -> bool {
    w == "eq"@ || w == "ne"@ || w == "gt"@ || w == "ge"@ || w == "lt"@ || w == "le"@
}

/// Well-formed version-family arguments.
pub open spec fn ver_args_wf(vs: Seq<Seq<char>>) -> bool {
    vs.len() >= 2 && ver_verb(vs[1]) && vs.len() == 4
}

/// The environment-family argument counts, by verb.
pub open spec fn env_arity_ok(vs: Seq<Seq<char>>) -> bool {
    env_args_wf(vs)
}

/// The environment-family verbs.
pub open spec fn env_verb(w: Seq<char>) -> bool {
    w == "set"@ || w == "equal-to"@
}

/// Well-formed environment-family arguments.
pub open spec fn env_args_wf(vs: Seq<Seq<char>>) -> bool {
    vs.len() >= 2 && {
        if vs[1] == "set"@ {
            vs.len() == 3
        } else if vs[1] == "equal-to"@ {
            vs.len() == 4
        } else {
            false
        }
    }
}

/// The network-family verbs.
pub open spec fn net_verb(w: Seq<char>) -> bool {
    w == "online"@ || w == "port-open"@
}

/// Well-formed network-family arguments.
pub open spec fn net_args_wf(vs: Seq<Seq<char>>) -> bool {
    vs.len() >= 2 && {
        if vs[1] == "online"@ {
            vs.len() == 2
        } else if vs[1] == "port-open"@ {
            (vs.len() == 4 || (vs.len() == 6 && vs[4] == "--timeout-ms"@ && is_u64_string(vs[5])))
                && is_u64_string(vs[3]) && int_val(vs[3]) <= u16::MAX
        } else {
            false
        }
    }
}

/// The network-family argument counts, by verb; the optional timeout flag
/// must be spelled out before its value.
pub open spec fn net_arity_ok(vs: Seq<Seq<char>>) -> bool {
    vs.len() >= 2 && {
        if vs[1] == "online"@ {
            vs.len() == 2
        } else if vs[1] == "port-open"@ {
            vs.len() == 4 || (vs.len() == 6 && vs[4] == "--timeout-ms"@)
        } else {
            false
        }
    }
}

/// The system-family verbs.
pub open spec fn sys_verb(w: Seq<char>) -> bool {
    w == "os"@ || w == "command-exists"@ || w == "arch"@ || w == "fd-tty"@
}

/// Well-formed system-family arguments.
pub open spec fn sys_args_wf(vs: Seq<Seq<char>>) -> bool {
    vs.len() >= 2 && {
        if vs[1] == "os"@ || vs[1] == "command-exists"@ || vs[1] == "arch"@ {
            vs.len() == 3
        } else if vs[1] == "fd-tty"@ {
            vs.len() == 3 && int_shape(vs[2]) && i32::MIN <= int_val(vs[2]) <= i32::MAX
        } else {
            false
        }
    }
}

/// The system-family argument counts, by verb.
pub open spec fn sys_arity_ok(vs: Seq<Seq<char>>) -> bool {
    vs.len() >= 2 && sys_verb(vs[1]) && vs.len() == 3
}

/// The verb belongs to the named family.
pub open spec fn family_verb(f: Seq<char>, w: Seq<char>) -> bool {
    if f == "file"@ {
        file_verb(w)
    } else if f == "string"@ {
        str_verb(w)
    } else if f == "int"@ {
        int_verb(w)
    } else if f == "float"@ {
        float_verb(w)
    } else if f == "semver"@ {
        ver_verb(w)
    } else if f == "env"@ {
        env_verb(w)
    } else if f == "net"@ {
        net_verb(w)
    } else if f == "system"@ {
        sys_verb(w)
    } else {
        false
    }
}

/// A well-formed argument vector: a known family, a known verb of it, and
/// arguments of the right count and types.
pub open spec fn args_wf(vs: Seq<Seq<char>>) -> bool {
    vs.len() >= 2 && ((vs[0] == "file"@ && file_args_wf(vs)) || (vs[0] == "string"@ && str_args_wf(
        vs,
    )) || (vs[0] == "int"@ && int_args_wf(vs)) || (vs[0] == "float"@ && float_args_wf(vs)) || (
    vs[0] == "semver"@ && ver_args_wf(vs)) || (vs[0] == "env"@ && env_args_wf(vs)) || (vs[0]
        == "net"@ && net_args_wf(vs)) || (vs[0] == "system"@ && sys_args_wf(vs)))
}

} // verus!

verus! {

/// Resolves the file-family verbs.
#[verifier::rlimit(100)]
fn parse_file(args: &Vec<String>) -> (r: Result<Request, UsageError>)
    requires
        args@.len() >= 2,
        args@[0]@ == "file"@,
    ensures
        ({
            let vs = args@.map_values(|s: String| s@);
            &&& (r is Ok <==> file_args_wf(vs))
            &&& (r matches Ok(req) ==> req_matches(req, vs))
            &&& (!file_verb(vs[1]) ==> (r matches Err(UsageError::UnknownVerb { family, word })
                && family@ == vs[0] && word@ == vs[1]))
            &&& (file_verb(vs[1]) && !file_arity_ok(vs) ==> (r matches Err(
                UsageError::WrongArity { verb: w },
            ) && w@ == vs[1]))
            &&& (file_verb(vs[1]) && file_arity_ok(vs) && !file_args_wf(vs) ==> (r matches Err(
                UsageError::BadArgument { verb: w, .. },
            ) && w@ == vs[1]))
        }),
{
    let ghost vs = args@.map_values(|s: String| s@);
    proof {
        assert(forall|i: int| 0 <= i < args@.len() ==> #[trigger] vs[i] == args@[i]@);
    }
    let n = args.len();
    let v = args[1].as_str();
    if str_eq(v, "exists") {
        if n != 3 {
            return Err(UsageError::WrongArity { verb: args[1].clone() });
        }
        Ok(Request::File(FileReq::Exists { path: args[2].clone() }))
    } else if str_eq(v, "directory") {
        if n != 3 {
            return Err(UsageError::WrongArity { verb: args[1].clone() });
        }
        Ok(Request::File(FileReq::KindIs { path: args[2].clone(), kind: FileKind::Directory }))
    } else if str_eq(v, "regular") {
        if n != 3 {
            return Err(UsageError::WrongArity { verb: args[1].clone() });
        }
        Ok(Request::File(FileReq::KindIs { path: args[2].clone(), kind: FileKind::Regular }))
    } else if str_eq(v, "symlink") {
        if n != 3 {
            return Err(UsageError::WrongArity { verb: args[1].clone() });
        }
        Ok(Request::File(FileReq::Symlink { path: args[2].clone() }))
    } else if str_eq(v, "block-device") {
        if n != 3 {
            return Err(UsageError::WrongArity { verb: args[1].clone() });
        }
        Ok(Request::File(FileReq::KindIs { path: args[2].clone(), kind: FileKind::BlockDevice }))
    } else if str_eq(v, "character-device") {
        if n != 3 {
            return Err(UsageError::WrongArity { verb: args[1].clone() });
        }
        Ok(Request::File(FileReq::KindIs { path: args[2].clone(), kind: FileKind::CharDevice }))
    } else if str_eq(v, "named-pipe") {
        if n != 3 {
            return Err(UsageError::WrongArity { verb: args[1].clone() });
        }
        Ok(Request::File(FileReq::KindIs { path: args[2].clone(), kind: FileKind::Fifo }))
    } else if str_eq(v, "socket") {
        if n != 3 {
            return Err(UsageError::WrongArity { verb: args[1].clone() });
        }
        Ok(Request::File(FileReq::KindIs { path: args[2].clone(), kind: FileKind::Socket }))
    } else if str_eq(v, "non-empty") {
        if n != 3 {
            return Err(UsageError::WrongArity { verb: args[1].clone() });
        }
        Ok(Request::File(FileReq::NonEmpty { path: args[2].clone() }))
    } else if str_eq(v, "readable") {
        if n != 3 {
            return Err(UsageError::WrongArity { verb: args[1].clone() });
        }
        Ok(Request::File(FileReq::Access { path: args[2].clone(), mode: AccessMode::Read }))
    } else if str_eq(v, "writable") {
        if n != 3 {
            return Err(UsageError::WrongArity { verb: args[1].clone() });
        }
        Ok(Request::File(FileReq::Access { path: args[2].clone(), mode: AccessMode::Write }))
    } else if str_eq(v, "executable") {
        if n != 3 {
            return Err(UsageError::WrongArity { verb: args[1].clone() });
        }
        Ok(Request::File(FileReq::Access { path: args[2].clone(), mode: AccessMode::Execute }))
    } else if str_eq(v, "has-suid") {
        if n != 3 {
            return Err(UsageError::WrongArity { verb: args[1].clone() });
        }
        Ok(Request::File(FileReq::ModeBit { path: args[2].clone(), mask: 0o4000u32 }))
    } else if str_eq(v, "has-sgid") {
        if n != 3 {
            return Err(UsageError::WrongArity { verb: args[1].clone() });
        }
        Ok(Request::File(FileReq::ModeBit { path: args[2].clone(), mask: 0o2000u32 }))
    } else if str_eq(v, "has-sticky") {
        if n != 3 {
            return Err(UsageError::WrongArity { verb: args[1].clone() });
        }
        Ok(Request::File(FileReq::ModeBit { path: args[2].clone(), mask: 0o1000u32 }))
    } else if str_eq(v, "owned-by-effective-user") {
        if n != 3 {
            return Err(UsageError::WrongArity { verb: args[1].clone() });
        }
        Ok(Request::File(FileReq::OwnedByUser { path: args[2].clone() }))
    } else if str_eq(v, "owned-by-effective-group") {
        if n != 3 {
            return Err(UsageError::WrongArity { verb: args[1].clone() });
        }
        Ok(Request::File(FileReq::OwnedByGroup { path: args[2].clone() }))
    } else if str_eq(v, "exists-glob") {
        if n != 3 {
            return Err(UsageError::WrongArity { verb: args[1].clone() });
        }
        Ok(Request::File(FileReq::ExistsGlob { pattern: args[2].clone() }))
    } else if str_eq(v, "non-empty-glob") {
        if n != 3 {
            return Err(UsageError::WrongArity { verb: args[1].clone() });
        }
        Ok(Request::File(FileReq::NonEmptyGlob { pattern: args[2].clone() }))
    } else if str_eq(v, "has-same-inode") {
        if n != 4 {
            return Err(UsageError::WrongArity { verb: args[1].clone() });
        }
        Ok(Request::File(FileReq::SameInode { a: args[2].clone(), b: args[3].clone() }))
    } else if str_eq(v, "newer-than") {
        if n != 4 {
            return Err(UsageError::WrongArity { verb: args[1].clone() });
        }
        Ok(Request::File(FileReq::NewerThan { a: args[2].clone(), b: args[3].clone() }))
    } else if str_eq(v, "older-than") {
        if n != 4 {
            return Err(UsageError::WrongArity { verb: args[1].clone() });
        }
        Ok(Request::File(FileReq::OlderThan { a: args[2].clone(), b: args[3].clone() }))
    } else if str_eq(v, "size-gt") || str_eq(v, "size-ge") || str_eq(v, "size-lt") || str_eq(
        v,
        "size-le",
    ) || str_eq(v, "size-eq") {
        if n != 4 {
            return Err(UsageError::WrongArity { verb: args[1].clone() });
        }
        let bytes = match parse_u64(args[3].as_str()) {
            Some(b) => b,
            None => {
                return Err(
                    UsageError::BadArgument {
                        verb: args[1].clone(),
                        arg: args[3].clone(),
                        expected: ArgKind::Unsigned,
                    },
                );
            },
        };
        let op = if str_eq(v, "size-gt") {
            CmpOp::Gt
        } else if str_eq(v, "size-ge") {
            CmpOp::Ge
        } else if str_eq(v, "size-lt") {
            CmpOp::Lt
        } else if str_eq(v, "size-le") {
            CmpOp::Le
        } else {
            CmpOp::Eq
        };
        Ok(Request::File(FileReq::SizeCmp { path: args[2].clone(), op, bytes }))
    } else if str_eq(v, "mtime-older-than") {
        if n != 4 {
            return Err(UsageError::WrongArity { verb: args[1].clone() });
        }
        match parse_u64(args[3].as_str()) {
            Some(seconds) => Ok(
                Request::File(FileReq::MtimeOlderThan { path: args[2].clone(), seconds }),
            ),
            None => Err(
                UsageError::BadArgument {
                    verb: args[1].clone(),
                    arg: args[3].clone(),
                    expected: ArgKind::Unsigned,
                },
            ),
        }
    } else if str_eq(v, "mtime-newer-than") {
        if n != 4 {
            return Err(UsageError::WrongArity { verb: args[1].clone() });
        }
        match parse_u64(args[3].as_str()) {
            Some(seconds) => Ok(
                Request::File(FileReq::MtimeNewerThan { path: args[2].clone(), seconds }),
            ),
            None => Err(
                UsageError::BadArgument {
                    verb: args[1].clone(),
                    arg: args[3].clone(),
                    expected: ArgKind::Unsigned,
                },
            ),
        }
    } else {
        Err(UsageError::UnknownVerb { family: args[0].clone(), word: args[1].clone() })
    }
}

} // verus!

verus! {

/// Maps a plain relational verb to its operator.
fn parse_cmp_op(v: &str) -> (r: Option<CmpOp>)
    ensures
        r is Some <==> (v@ == "eq"@ || v@ == "ne"@ || v@ == "gt"@ || v@ == "ge"@ || v@ == "lt"@
            || v@ == "le"@),
        r matches Some(op) ==> cmp_verb(op) == v@,
{
    if str_eq(v, "eq") {
        Some(CmpOp::Eq)
    } else if str_eq(v, "ne") {
        Some(CmpOp::Ne)
    } else if str_eq(v, "gt") {
        Some(CmpOp::Gt)
    } else if str_eq(v, "ge") {
        Some(CmpOp::Ge)
    } else if str_eq(v, "lt") {
        Some(CmpOp::Lt)
    } else if str_eq(v, "le") {
        Some(CmpOp::Le)
    } else {
        None
    }
}

/// Resolves the string-family verbs.
#[verifier::rlimit(100)]
#[verifier::spinoff_prover]
fn parse_string(args: &Vec<String>) -> (r: Result<Request, UsageError>)
    requires
        args@.len() >= 2,
        args@[0]@ == "string"@,
    ensures
        ({
            let vs = args@.map_values(|s: String| s@);
            &&& (r is Ok <==> str_args_wf(vs))
            &&& (r matches Ok(req) ==> req_matches(req, vs))
            &&& (!str_verb(vs[1]) ==> (r matches Err(UsageError::UnknownVerb { family, word })
                && family@ == vs[0] && word@ == vs[1]))
            &&& (str_verb(vs[1]) && !str_arity_ok(vs) ==> (r matches Err(
                UsageError::WrongArity { verb: w },
            ) && w@ == vs[1]))
            &&& (str_verb(vs[1]) && str_arity_ok(vs) && !str_args_wf(vs) ==> (r matches Err(
                UsageError::BadArgument { verb: w, .. },
            ) && w@ == vs[1]))
        }),
{
    let ghost vs = args@.map_values(|s: String| s@);
    proof {
        reveal_strlit("equal");
        reveal_strlit("not-equals");
        reveal_strlit("empty");
        reveal_strlit("not-empty");
        reveal_strlit("equal-ci");
        reveal_strlit("matches-regex");
        reveal_strlit("matches-regex-ci");
        reveal_strlit("contains");
        reveal_strlit("contains-ci");
        reveal_strlit("starts-with");
        reveal_strlit("starts-with-ci");
        reveal_strlit("ends-with");
        reveal_strlit("ends-with-ci");
        reveal_strlit("integer");
        reveal_strlit("number");
        reveal_strlit("uuid");
        reveal_strlit("ipv4");
        reveal_strlit("ascii");
        reveal_strlit("len-gt");
        reveal_strlit("len-ge");
        reveal_strlit("len-lt");
        reveal_strlit("len-le");
        reveal_strlit("len-eq");
        reveal_strlit("advise-quote");
        assert("equal"@[1] == 'q' && "empty"@[1] == 'm' && "ascii"@[1] == 's');
        assert("equal"@ != "empty"@ && "equal"@ != "ascii"@);
        assert("equal-ci"@[0] == 'e' && "contains"@[0] == 'c');
        assert("equal-ci"@ != "contains"@);
        assert("not-empty"@[0] == 'n' && "ends-with"@[0] == 'e');
        assert("not-empty"@ != "ends-with"@);
        assert("contains-ci"@[0] == 'c' && "starts-with"@[0] == 's');
        assert("contains-ci"@ != "starts-with"@);
        assert("ends-with-ci"@[0] == 'e' && "advise-quote"@[0] == 'a');
        assert("ends-with-ci"@ != "advise-quote"@);
        assert("number"@[0] == 'n' && "len-gt"@[0] == 'l' && "len-ge"@[1] == 'e'
            && "len-lt"@[0] == 'l' && "len-le"@[0] == 'l' && "len-eq"@[0] == 'l');
        assert("number"@ != "len-gt"@ && "number"@ != "len-ge"@ && "number"@ != "len-lt"@
            && "number"@ != "len-le"@ && "number"@ != "len-eq"@);
        assert("uuid"@[0] == 'u' && "ipv4"@[0] == 'i');
        assert("uuid"@ != "ipv4"@);
        assert(forall|i: int| 0 <= i < args@.len() ==> #[trigger] vs[i] == args@[i]@);
    }
    let n = args.len();
    let v = args[1].as_str();
    if str_eq(v, "equal") {
        if n != 4 {
            return Err(UsageError::WrongArity { verb: args[1].clone() });
        }
        return Ok(Request::Str(StrReq::Equal { a: args[2].clone(), b: args[3].clone() }))
    } else if str_eq(v, "not-equals") {
        if n != 4 {
            return Err(UsageError::WrongArity { verb: args[1].clone() });
        }
        return Ok(Request::Str(StrReq::NotEqual { a: args[2].clone(), b: args[3].clone() }))
    } else if str_eq(v, "empty") {
        if n != 3 {
            return Err(UsageError::WrongArity { verb: args[1].clone() });
        }
        return Ok(Request::Str(StrReq::Empty { s: args[2].clone() }))
    } else if str_eq(v, "not-empty") {
        if n != 3 {
            return Err(UsageError::WrongArity { verb: args[1].clone() });
        }
        return Ok(Request::Str(StrReq::NonEmpty { s: args[2].clone() }))
    } else if str_eq(v, "equal-ci") {
        if n != 4 {
            return Err(UsageError::WrongArity { verb: args[1].clone() });
        }
        return Ok(Request::Str(StrReq::EqualCi { a: args[2].clone(), b: args[3].clone() }))
    } else if str_eq(v, "matches-regex") {
        if n != 4 {
            return Err(UsageError::WrongArity { verb: args[1].clone() });
        }
        return Ok(Request::Str(StrReq::MatchesRegex { s: args[2].clone(), pattern: args[3].clone() }))
    } else if str_eq(v, "matches-regex-ci") {
        if n != 4 {
            return Err(UsageError::WrongArity { verb: args[1].clone() });
        }
        return Ok(Request::Str(StrReq::MatchesRegexCi { s: args[2].clone(), pattern: args[3].clone() }))
    } else if str_eq(v, "contains") {
        if n != 4 {
            return Err(UsageError::WrongArity { verb: args[1].clone() });
        }
        return Ok(Request::Str(StrReq::Contains { s: args[2].clone(), needle: args[3].clone() }))
    } else if str_eq(v, "contains-ci") {
        if n != 4 {
            return Err(UsageError::WrongArity { verb: args[1].clone() });
        }
        return Ok(Request::Str(StrReq::ContainsCi { s: args[2].clone(), needle: args[3].clone() }))
    } else if str_eq(v, "starts-with") {
        if n != 4 {
            return Err(UsageError::WrongArity { verb: args[1].clone() });
        }
        return Ok(Request::Str(StrReq::StartsWith { s: args[2].clone(), prefix: args[3].clone() }))
    } else if str_eq(v, "starts-with-ci") {
        if n != 4 {
            return Err(UsageError::WrongArity { verb: args[1].clone() });
        }
        return Ok(Request::Str(StrReq::StartsWithCi { s: args[2].clone(), prefix: args[3].clone() }))
    } else if str_eq(v, "ends-with") {
        if n != 4 {
            return Err(UsageError::WrongArity { verb: args[1].clone() });
        }
        return Ok(Request::Str(StrReq::EndsWith { s: args[2].clone(), suffix: args[3].clone() }))
    } else if str_eq(v, "ends-with-ci") {
        if n != 4 {
            return Err(UsageError::WrongArity { verb: args[1].clone() });
        }
        return Ok(Request::Str(StrReq::EndsWithCi { s: args[2].clone(), suffix: args[3].clone() }))
    } else if str_eq(v, "integer") {
        if n != 3 {
            return Err(UsageError::WrongArity { verb: args[1].clone() });
        }
        return Ok(Request::Str(StrReq::IsInteger { s: args[2].clone() }))
    } else if str_eq(v, "number") {
        if n != 3 {
            return Err(UsageError::WrongArity { verb: args[1].clone() });
        }
        return Ok(Request::Str(StrReq::IsNumber { s: args[2].clone() }))
    } else if str_eq(v, "uuid") {
        if n != 3 {
            return Err(UsageError::WrongArity { verb: args[1].clone() });
        }
        return Ok(Request::Str(StrReq::IsUuid { s: args[2].clone() }))
    } else if str_eq(v, "ipv4") {
        if n != 3 {
            return Err(UsageError::WrongArity { verb: args[1].clone() });
        }
        return Ok(Request::Str(StrReq::IsIpv4 { s: args[2].clone() }))
    } else if str_eq(v, "ascii") {
        if n != 3 {
            return Err(UsageError::WrongArity { verb: args[1].clone() });
        }
        return Ok(Request::Str(StrReq::AsciiOnly { s: args[2].clone() }))
    } else if str_eq(v, "len-gt") || str_eq(v, "len-ge") || str_eq(v, "len-lt") || str_eq(
        v,
        "len-le",
    ) || str_eq(v, "len-eq") {
        if n != 4 {
            return Err(UsageError::WrongArity { verb: args[1].clone() });
        }
        let count = match parse_u64(args[3].as_str()) {
            Some(b) => b,
            None => {
                return Err(
                    UsageError::BadArgument {
                        verb: args[1].clone(),
                        arg: args[3].clone(),
                        expected: ArgKind::Unsigned,
                    },
                );
            },
        };
        let op = if str_eq(v, "len-gt") {
            CmpOp::Gt
        } else if str_eq(v, "len-ge") {
            CmpOp::Ge
        } else if str_eq(v, "len-lt") {
            CmpOp::Lt
        } else if str_eq(v, "len-le") {
            CmpOp::Le
        } else {
            CmpOp::Eq
        };
        return Ok(Request::Str(StrReq::LenCmp { s: args[2].clone(), op, n: count }))
    } else if str_eq(v, "advise-quote") {
        if n != 3 {
            return Err(UsageError::WrongArity { verb: args[1].clone() });
        }
        return Ok(Request::Str(StrReq::AdviseQuote { value: args[2].clone() }))
    } else {
        return Err(UsageError::UnknownVerb { family: args[0].clone(), word: args[1].clone() })
    }
}

/// Resolves the integer-family verbs.
#[verifier::rlimit(60)]
fn parse_int(args: &Vec<String>) -> (r: Result<Request, UsageError>)
    requires
        args@.len() >= 2,
        args@[0]@ == "int"@,
    ensures
        ({
            let vs = args@.map_values(|s: String| s@);
            &&& (r is Ok <==> int_args_wf(vs))
            &&& (r matches Ok(req) ==> req_matches(req, vs))
            &&& (!int_verb(vs[1]) ==> (r matches Err(UsageError::UnknownVerb { family, word })
                && family@ == vs[0] && word@ == vs[1]))
            &&& (int_verb(vs[1]) && !int_arity_ok(vs) ==> (r matches Err(
                UsageError::WrongArity { verb: w },
            ) && w@ == vs[1]))
            &&& (int_verb(vs[1]) && int_arity_ok(vs) && !int_args_wf(vs) ==> (r matches Err(
                UsageError::BadArgument { verb: w, .. },
            ) && w@ == vs[1]))
        }),
{
    let ghost vs = args@.map_values(|s: String| s@);
    proof {
        assert(forall|i: int| 0 <= i < args@.len() ==> #[trigger] vs[i] == args@[i]@);
    }
    let n = args.len();
    let v = args[1].as_str();
    match parse_cmp_op(v) {
        Some(op) => {
            if n != 4 {
                return Err(UsageError::WrongArity { verb: args[1].clone() });
            }
            let a = match parse_i64(args[2].as_str()) {
                Some(x) => x,
                None => {
                    return Err(
                        UsageError::BadArgument {
                            verb: args[1].clone(),
                            arg: args[2].clone(),
                            expected: ArgKind::Integer,
                        },
                    );
                },
            };
            let b = match parse_i64(args[3].as_str()) {
                Some(x) => x,
                None => {
                    return Err(
                        UsageError::BadArgument {
                            verb: args[1].clone(),
                            arg: args[3].clone(),
                            expected: ArgKind::Integer,
                        },
                    );
                },
            };
            Ok(Request::Int(IntReq::Cmp { op, a, b }))
        },
        None => {
            if str_eq(v, "in-range") {
                if n != 5 {
                    return Err(UsageError::WrongArity { verb: args[1].clone() });
                }
                let value = match parse_i64(args[2].as_str()) {
                    Some(x) => x,
                    None => {
                        return Err(
                            UsageError::BadArgument {
                                verb: args[1].clone(),
                                arg: args[2].clone(),
                                expected: ArgKind::Integer,
                            },
                        );
                    },
                };
                let min = match parse_i64(args[3].as_str()) {
                    Some(x) => x,
                    None => {
                        return Err(
                            UsageError::BadArgument {
                                verb: args[1].clone(),
                                arg: args[3].clone(),
                                expected: ArgKind::Integer,
                            },
                        );
                    },
                };
                let max = match parse_i64(args[4].as_str()) {
                    Some(x) => x,
                    None => {
                        return Err(
                            UsageError::BadArgument {
                                verb: args[1].clone(),
                                arg: args[4].clone(),
                                expected: ArgKind::Integer,
                            },
                        );
                    },
                };
                Ok(Request::Int(IntReq::InRange { value, min, max }))
            } else if str_eq(v, "positive") {
                if n != 3 {
                    return Err(UsageError::WrongArity { verb: args[1].clone() });
                }
                if !crate::classify::is_number(args[2].as_str()) {
                    return Err(
                        UsageError::BadArgument {
                            verb: args[1].clone(),
                            arg: args[2].clone(),
                            expected: ArgKind::Numeric,
                        },
                    );
                }
                Ok(Request::Int(IntReq::Positive { n: args[2].clone() }))
            } else if str_eq(v, "negative") {
                if n != 3 {
                    return Err(UsageError::WrongArity { verb: args[1].clone() });
                }
                if !crate::classify::is_number(args[2].as_str()) {
                    return Err(
                        UsageError::BadArgument {
                            verb: args[1].clone(),
                            arg: args[2].clone(),
                            expected: ArgKind::Numeric,
                        },
                    );
                }
                Ok(Request::Int(IntReq::Negative { n: args[2].clone() }))
            } else {
                Err(UsageError::UnknownVerb { family: args[0].clone(), word: args[1].clone() })
            }
        },
    }
}

/// Resolves the float-family verbs.
#[verifier::rlimit(60)]
fn parse_float(args: &Vec<String>) -> (r: Result<Request, UsageError>)
    requires
        args@.len() >= 2,
        args@[0]@ == "float"@,
    ensures
        ({
            let vs = args@.map_values(|s: String| s@);
            &&& (r is Ok <==> float_args_wf(vs))
            &&& (r matches Ok(req) ==> req_matches(req, vs))
            &&& (!float_verb(vs[1]) ==> (r matches Err(UsageError::UnknownVerb { family, word })
                && family@ == vs[0] && word@ == vs[1]))
            &&& (float_verb(vs[1]) && !float_arity_ok(vs) ==> (r matches Err(
                UsageError::WrongArity { verb: w },
            ) && w@ == vs[1]))
            &&& (float_verb(vs[1]) && float_arity_ok(vs) && !float_args_wf(vs) ==> (r matches Err(
                UsageError::BadArgument { verb: w, .. },
            ) && w@ == vs[1]))
        }),
{
    let ghost vs = args@.map_values(|s: String| s@);
    proof {
        assert(forall|i: int| 0 <= i < args@.len() ==> #[trigger] vs[i] == args@[i]@);
    }
    let n = args.len();
    let v = args[1].as_str();
    match parse_cmp_op(v) {
        Some(op) => {
            if n != 4 {
                return Err(UsageError::WrongArity { verb: args[1].clone() });
            }
            if !crate::classify::is_number(args[2].as_str()) {
                return Err(
                    UsageError::BadArgument {
                        verb: args[1].clone(),
                        arg: args[2].clone(),
                        expected: ArgKind::Numeric,
                    },
                );
            }
            if !crate::classify::is_number(args[3].as_str()) {
                return Err(
                    UsageError::BadArgument {
                        verb: args[1].clone(),
                        arg: args[3].clone(),
                        expected: ArgKind::Numeric,
                    },
                );
            }
            Ok(Request::Float(FloatReq::Cmp { op, a: args[2].clone(), b: args[3].clone() }))
        },
        None => {
            if str_eq(v, "in-range") || str_eq(v, "approx-eq") {
                if n != 5 {
                    return Err(UsageError::WrongArity { verb: args[1].clone() });
                }
                if !crate::classify::is_number(args[2].as_str()) {
                    return Err(
                        UsageError::BadArgument {
                            verb: args[1].clone(),
                            arg: args[2].clone(),
                            expected: ArgKind::Numeric,
                        },
                    );
                }
                if !crate::classify::is_number(args[3].as_str()) {
                    return Err(
                        UsageError::BadArgument {
                            verb: args[1].clone(),
                            arg: args[3].clone(),
                            expected: ArgKind::Numeric,
                        },
                    );
                }
                if !crate::classify::is_number(args[4].as_str()) {
                    return Err(
                        UsageError::BadArgument {
                            verb: args[1].clone(),
                            arg: args[4].clone(),
                            expected: ArgKind::Numeric,
                        },
                    );
                }
                if str_eq(v, "in-range") {
                    Ok(
                        Request::Float(
                            FloatReq::InRange {
                                min: args[2].clone(),
                                max: args[3].clone(),
                                value: args[4].clone(),
                            },
                        ),
                    )
                } else {
                    Ok(
                        Request::Float(
                            FloatReq::ApproxEq {
                                a: args[2].clone(),
                                b: args[3].clone(),
                                epsilon: args[4].clone(),
                            },
                        ),
                    )
                }
            } else {
                Err(UsageError::UnknownVerb { family: args[0].clone(), word: args[1].clone() })
            }
        },
    }
}

/// Resolves the version-family verbs.
fn parse_semver(args: &Vec<String>) -> (r: Result<Request, UsageError>)
    requires
        args@.len() >= 2,
        args@[0]@ == "semver"@,
    ensures
        ({
            let vs = args@.map_values(|s: String| s@);
            &&& (r is Ok <==> ver_args_wf(vs))
            &&& (r matches Ok(req) ==> req_matches(req, vs))
            &&& (!ver_verb(vs[1]) ==> (r matches Err(UsageError::UnknownVerb { family, word })
                && family@ == vs[0] && word@ == vs[1]))
            &&& (ver_verb(vs[1]) && !ver_args_wf(vs) ==> (r matches Err(
                UsageError::WrongArity { verb: w },
            ) && w@ == vs[1]))
        }),
{
    let ghost vs = args@.map_values(|s: String| s@);
    proof {
        assert(forall|i: int| 0 <= i < args@.len() ==> #[trigger] vs[i] == args@[i]@);
    }
    let n = args.len();
    let v = args[1].as_str();
    match parse_cmp_op(v) {
        Some(op) => {
            if n != 4 {
                return Err(UsageError::WrongArity { verb: args[1].clone() });
            }
            Ok(Request::Version(VerReq::Cmp { op, a: args[2].clone(), b: args[3].clone() }))
        },
        None => Err(UsageError::UnknownVerb { family: args[0].clone(), word: args[1].clone() }),
    }
}

/// Resolves the environment-family verbs.
fn parse_env(args: &Vec<String>) -> (r: Result<Request, UsageError>)
    requires
        args@.len() >= 2,
        args@[0]@ == "env"@,
    ensures
        ({
            let vs = args@.map_values(|s: String| s@);
            &&& (r is Ok <==> env_args_wf(vs))
            &&& (r matches Ok(req) ==> req_matches(req, vs))
            &&& (!env_verb(vs[1]) ==> (r matches Err(UsageError::UnknownVerb { family, word })
                && family@ == vs[0] && word@ == vs[1]))
            &&& (env_verb(vs[1]) && !env_arity_ok(vs) ==> (r matches Err(
                UsageError::WrongArity { verb: w },
            ) && w@ == vs[1]))
            &&& (env_verb(vs[1]) && env_arity_ok(vs) && !env_args_wf(vs) ==> (r matches Err(
                UsageError::BadArgument { verb: w, .. },
            ) && w@ == vs[1]))
        }),
{
    let ghost vs = args@.map_values(|s: String| s@);
    proof {
        assert(forall|i: int| 0 <= i < args@.len() ==> #[trigger] vs[i] == args@[i]@);
    }
    let n = args.len();
    let v = args[1].as_str();
    if str_eq(v, "set") {
        if n != 3 {
            return Err(UsageError::WrongArity { verb: args[1].clone() });
        }
        Ok(Request::Env(EnvReq::IsSet { name: args[2].clone() }))
    } else if str_eq(v, "equal-to") {
        if n != 4 {
            return Err(UsageError::WrongArity { verb: args[1].clone() });
        }
        Ok(Request::Env(EnvReq::EqualTo { name: args[2].clone(), value: args[3].clone() }))
    } else {
        Err(UsageError::UnknownVerb { family: args[0].clone(), word: args[1].clone() })
    }
}

/// Resolves the network-family verbs.
fn parse_net(args: &Vec<String>) -> (r: Result<Request, UsageError>)
    requires
        args@.len() >= 2,
        args@[0]@ == "net"@,
    ensures
        ({
            let vs = args@.map_values(|s: String| s@);
            &&& (r is Ok <==> net_args_wf(vs))
            &&& (r matches Ok(req) ==> req_matches(req, vs))
            &&& (!net_verb(vs[1]) ==> (r matches Err(UsageError::UnknownVerb { family, word })
                && family@ == vs[0] && word@ == vs[1]))
            &&& (net_verb(vs[1]) && !net_arity_ok(vs) ==> (r matches Err(
                UsageError::WrongArity { verb: w },
            ) && w@ == vs[1]))
            &&& (net_verb(vs[1]) && net_arity_ok(vs) && !net_args_wf(vs) ==> (r matches Err(
                UsageError::BadArgument { verb: w, .. },
            ) && w@ == vs[1]))
        }),
{
    let ghost vs = args@.map_values(|s: String| s@);
    proof {
        assert(forall|i: int| 0 <= i < args@.len() ==> #[trigger] vs[i] == args@[i]@);
    }
    let n = args.len();
    let v = args[1].as_str();
    if str_eq(v, "online") {
        if n != 2 {
            return Err(UsageError::WrongArity { verb: args[1].clone() });
        }
        Ok(Request::Net(NetReq::Online))
    } else if str_eq(v, "port-open") {
        if n != 4 && n != 6 {
            return Err(UsageError::WrongArity { verb: args[1].clone() });
        }
        if n == 6 && !str_eq(args[4].as_str(), "--timeout-ms") {
            return Err(UsageError::WrongArity { verb: args[1].clone() });
        }
        let port = match parse_u16(args[3].as_str()) {
            Some(p) => p,
            None => {
                return Err(
                    UsageError::BadArgument {
                        verb: args[1].clone(),
                        arg: args[3].clone(),
                        expected: ArgKind::Port,
                    },
                );
            },
        };
        if n == 4 {
            return Ok(
                Request::Net(NetReq::PortOpen { host: args[2].clone(), port, timeout_ms: 1000 }),
            );
        }
        match parse_u64(args[5].as_str()) {
            Some(timeout_ms) => Ok(
                Request::Net(NetReq::PortOpen { host: args[2].clone(), port, timeout_ms }),
            ),
            None => Err(
                UsageError::BadArgument {
                    verb: args[1].clone(),
                    arg: args[5].clone(),
                    expected: ArgKind::Unsigned,
                },
            ),
        }
    } else {
        Err(UsageError::UnknownVerb { family: args[0].clone(), word: args[1].clone() })
    }
}

/// Resolves the system-family verbs.
fn parse_system(args: &Vec<String>) -> (r: Result<Request, UsageError>)
    requires
        args@.len() >= 2,
        args@[0]@ == "system"@,
    ensures
        ({
            let vs = args@.map_values(|s: String| s@);
            &&& (r is Ok <==> sys_args_wf(vs))
            &&& (r matches Ok(req) ==> req_matches(req, vs))
            &&& (!sys_verb(vs[1]) ==> (r matches Err(UsageError::UnknownVerb { family, word })
                && family@ == vs[0] && word@ == vs[1]))
            &&& (sys_verb(vs[1]) && !sys_arity_ok(vs) ==> (r matches Err(
                UsageError::WrongArity { verb: w },
            ) && w@ == vs[1]))
            &&& (sys_verb(vs[1]) && sys_arity_ok(vs) && !sys_args_wf(vs) ==> (r matches Err(
                UsageError::BadArgument { verb: w, .. },
            ) && w@ == vs[1]))
        }),
{
    let ghost vs = args@.map_values(|s: String| s@);
    proof {
        assert(forall|i: int| 0 <= i < args@.len() ==> #[trigger] vs[i] == args@[i]@);
    }
    let n = args.len();
    let v = args[1].as_str();
    if str_eq(v, "os") {
        if n != 3 {
            return Err(UsageError::WrongArity { verb: args[1].clone() });
        }
        Ok(Request::Sys(SysReq::OsIs { name: args[2].clone() }))
    } else if str_eq(v, "command-exists") {
        if n != 3 {
            return Err(UsageError::WrongArity { verb: args[1].clone() });
        }
        Ok(Request::Sys(SysReq::CommandExists { command: args[2].clone() }))
    } else if str_eq(v, "arch") {
        if n != 3 {
            return Err(UsageError::WrongArity { verb: args[1].clone() });
        }
        Ok(Request::Sys(SysReq::ArchIs { name: args[2].clone() }))
    } else if str_eq(v, "fd-tty") {
        if n != 3 {
            return Err(UsageError::WrongArity { verb: args[1].clone() });
        }
        match parse_i32(args[2].as_str()) {
            Some(fd) => Ok(Request::Sys(SysReq::Tty { fd })),
            None => Err(
                UsageError::BadArgument {
                    verb: args[1].clone(),
                    arg: args[2].clone(),
                    expected: ArgKind::Descriptor,
                },
            ),
        }
    } else {
        Err(UsageError::UnknownVerb { family: args[0].clone(), word: args[1].clone() })
    }
}

/// Resolves a raw argument vector into one typed predicate request, or a
/// usage error naming the unknown family, the unknown verb, or a bad
/// argument.  Resolution is total and touches nothing outside its
/// arguments.
#[verifier::rlimit(100)]
pub fn parse(args: &Vec<String>) -> (r: Result<Request, UsageError>)
    ensures
        ({
            let vs = args@.map_values(|s: String| s@);
            &&& (r is Ok <==> args_wf(vs))
            &&& (r matches Ok(req) ==> req_matches(req, vs))
            &&& (vs.len() == 0 ==> r matches Err(UsageError::MissingCommand))
            &&& (vs.len() >= 1 && !known_family(vs[0]) ==> (r matches Err(
                UsageError::UnknownFamily { word },
            ) && word@ == vs[0]))
            &&& (vs.len() == 1 && known_family(vs[0]) ==> (r matches Err(
                UsageError::MissingVerb { family },
            ) && family@ == vs[0]))
            &&& (vs.len() >= 2 && known_family(vs[0]) && !family_verb(vs[0], vs[1]) ==> (r
                matches Err(UsageError::UnknownVerb { family, word }) && family@ == vs[0] && word@
                == vs[1]))
        }),
{
    let ghost vs = args@.map_values(|s: String| s@);
    proof {
        reveal_strlit("file");
        reveal_strlit("string");
        reveal_strlit("int");
        reveal_strlit("float");
        reveal_strlit("semver");
        reveal_strlit("env");
        reveal_strlit("net");
        reveal_strlit("system");
        assert("string"@[1] == 't' && "semver"@[1] == 'e' && "system"@[1] == 'y');
        assert("string"@ != "semver"@ && "string"@ != "system"@ && "semver"@ != "system"@);
        assert("int"@[0] == 'i' && "env"@[0] == 'e' && "net"@[0] == 'n');
        assert("int"@ != "env"@ && "int"@ != "net"@ && "env"@ != "net"@);
        assert(forall|i: int| 0 <= i < args@.len() ==> #[trigger] vs[i] == args@[i]@);
    }
    let n = args.len();
    if n == 0 {
        return Err(UsageError::MissingCommand);
    }
    let f = args[0].as_str();
    if str_eq(f, "file") {
        if n == 1 {
            return Err(UsageError::MissingVerb { family: args[0].clone() });
        }
        parse_file(args)
    } else if str_eq(f, "string") {
        if n == 1 {
            return Err(UsageError::MissingVerb { family: args[0].clone() });
        }
        parse_string(args)
    } else if str_eq(f, "int") {
        if n == 1 {
            return Err(UsageError::MissingVerb { family: args[0].clone() });
        }
        parse_int(args)
    } else if str_eq(f, "float") {
        if n == 1 {
            return Err(UsageError::MissingVerb { family: args[0].clone() });
        }
        parse_float(args)
    } else if str_eq(f, "semver") {
        if n == 1 {
            return Err(UsageError::MissingVerb { family: args[0].clone() });
        }
        parse_semver(args)
    } else if str_eq(f, "env") {
        if n == 1 {
            return Err(UsageError::MissingVerb { family: args[0].clone() });
        }
        parse_env(args)
    } else if str_eq(f, "net") {
        if n == 1 {
            return Err(UsageError::MissingVerb { family: args[0].clone() });
        }
        parse_net(args)
    } else if str_eq(f, "system") {
        if n == 1 {
            return Err(UsageError::MissingVerb { family: args[0].clone() });
        }
        parse_system(args)
    } else {
        Err(UsageError::UnknownFamily { word: args[0].clone() })
    }
}

} // verus!
