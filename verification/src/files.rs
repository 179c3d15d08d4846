//! File-status predicates.  Metadata retrieval is I/O and happens outside
//! the library; every predicate here is a total function of the observed
//! metadata, and absent metadata (a missing path, a failed call) makes a
//! predicate false, never an error.

use crate::{cmp_holds, CmpOp};
use vstd::prelude::*;

verus! {

/// The kind of a file, as its metadata reports it.
#[derive(Clone, Copy, PartialEq, Eq, Structural, Debug)]
pub enum FileKind {
    Directory,
    Regular,
    Symlink,
    BlockDevice,
    CharDevice,
    Fifo,
    Socket,
    Other,
}

/// The observed metadata of one file: its kind, byte size, permission
/// mode, owner ids, identity and modification instant.
#[derive(Clone, Copy, PartialEq, Eq, Structural, Debug)]
pub struct FileInfo {
    pub kind: FileKind,
    pub size: u64,
    pub mode: u32,
    pub uid: u32,
    pub gid: u32,
    pub dev: u64,
    pub ino: u64,
    pub mtime_s: i64,
    pub mtime_ns: u32,
}

/// One glob match: whether the matched path (still) exists, and its size
/// when its metadata could be read.
#[derive(Clone, Copy, PartialEq, Eq, Structural, Debug)]
pub struct GlobEntry {
    pub exists: bool,
    pub size: Option<u64>,
}

/// The file was observed and is of the given kind.
pub fn kind_is(md: &Option<FileInfo>, kind: FileKind) -> (r: bool)
    ensures
        r == (md is Some && md.unwrap().kind == kind),
{
    match md {
        Some(info) => info.kind == kind,
        None => false,
    }
}

/// The file was observed at all.
pub fn was_observed(md: &Option<FileInfo>) -> (r: bool)
    ensures
        r == (md is Some),
{
    md.is_some()
}

/// The file was observed and has more than zero bytes.
pub fn non_empty(md: &Option<FileInfo>) -> (r: bool)
    ensures
        r == (md is Some && md.unwrap().size > 0),
{
    match md {
        Some(info) => info.size > 0,
        None => false,
    }
}

/// The file was observed and its size stands in the given relation to the
/// byte count.
pub fn size_cmp(md: &Option<FileInfo>, op: CmpOp, bytes: u64) -> (r: bool)
    ensures
        r == (md is Some && cmp_holds(op, md.unwrap().size as int, bytes as int)),
{
    match md {
        Some(info) => crate::cmp_u64(op, info.size, bytes),
        None => false,
    }
}

/// The file was observed and has the given permission bit set.
pub fn has_mode_bit(md: &Option<FileInfo>, mask: u32) -> (r: bool)
    ensures
        r == (md is Some && md.unwrap().mode & mask != 0),
{
    match md {
        Some(info) => info.mode & mask != 0,
        None => false,
    }
}

/// The file was observed and is owned by the given user id.
pub fn owned_by_uid(md: &Option<FileInfo>, uid: u32) -> (r: bool)
    ensures
        r == (md is Some && md.unwrap().uid == uid),
{
    match md {
        Some(info) => info.uid == uid,
        None => false,
    }
}

/// The file was observed and is owned by the given group id.
pub fn owned_by_gid(md: &Option<FileInfo>, gid: u32) -> (r: bool)
    ensures
        r == (md is Some && md.unwrap().gid == gid),
{
    match md {
        Some(info) => info.gid == gid,
        None => false,
    }
}

/// Both files were observed, on the same device with the same inode.
pub fn same_inode(a: &Option<FileInfo>, b: &Option<FileInfo>) -> (r: bool)
    ensures
        r == (a is Some && b is Some && a.unwrap().dev == b.unwrap().dev && a.unwrap().ino
            == b.unwrap().ino),
{
    match (a, b) {
        (Some(x), Some(y)) => x.dev == y.dev && x.ino == y.ino,
        _ => false,
    }
}

/// The first modification instant is strictly after the second.
pub open spec fn mtime_after(x: FileInfo, y: FileInfo) -> bool {
    x.mtime_s > y.mtime_s || (x.mtime_s == y.mtime_s && x.mtime_ns > y.mtime_ns)
}

/// Both files were observed and the first was modified strictly later.
pub fn newer_than(a: &Option<FileInfo>, b: &Option<FileInfo>) -> (r: bool)
    ensures
        r == (a is Some && b is Some && mtime_after(a.unwrap(), b.unwrap())),
{
    match (a, b) {
        (Some(x), Some(y)) => x.mtime_s > y.mtime_s || (x.mtime_s == y.mtime_s && x.mtime_ns
            > y.mtime_ns),
        _ => false,
    }
}

/// Both files were observed and the first was modified strictly earlier.
pub fn older_than(a: &Option<FileInfo>, b: &Option<FileInfo>) -> (r: bool)
    ensures
        r == (a is Some && b is Some && mtime_after(b.unwrap(), a.unwrap())),
{
    match (a, b) {
        (Some(x), Some(y)) => y.mtime_s > x.mtime_s || (y.mtime_s == x.mtime_s && y.mtime_ns
            > x.mtime_ns),
        _ => false,
    }
}

/// The file's age in seconds was observed and is strictly more than the
/// given number of seconds.
pub fn age_older_than(age: &Option<u64>, seconds: u64) -> (r: bool)
    ensures
        r == (age is Some && age.unwrap() > seconds),
{
    match age {
        Some(a) => *a > seconds,
        None => false,
    }
}

/// The file's age in seconds was observed and is strictly less than the
/// given number of seconds.
pub fn age_newer_than(age: &Option<u64>, seconds: u64) -> (r: bool)
    ensures
        r == (age is Some && age.unwrap() < seconds),
{
    match age {
        Some(a) => *a < seconds,
        None => false,
    }
}

/// The pattern parsed and some match exists.
pub fn exists_glob_outcome(matches: &Option<Vec<GlobEntry>>) -> (r: bool)
    ensures
        r == (matches is Some && exists|i: int|
            0 <= i < matches.unwrap()@.len() && matches.unwrap()@[i].exists),
{
    if matches.is_none() {
        return false;
    }
    let entries = matches.as_ref().unwrap();
    let n = entries.len();
    let mut i: usize = 0;
    while i < n
        invariant
            matches is Some,
            entries@ == matches.unwrap()@,
            n == entries@.len(),
            i <= n,
            forall|j: int| 0 <= j < i ==> !entries@[j].exists,
        decreases n - i,
    {
        if entries[i].exists {
            proof {
                assert(0 <= i < matches.unwrap()@.len() && matches.unwrap()@[i as int].exists);
            }
            return true;
        }
        i += 1;
    }
    false
}

/// The pattern parsed and some match has more than zero bytes.
pub fn non_empty_glob_outcome(matches: &Option<Vec<GlobEntry>>) -> (r: bool)
    ensures
        r == (matches is Some && exists|i: int|
            0 <= i < matches.unwrap()@.len() && matches.unwrap()@[i].size is Some
                && matches.unwrap()@[i].size.unwrap() > 0),
{
    if matches.is_none() {
        return false;
    }
    let entries = matches.as_ref().unwrap();
    let n = entries.len();
    let mut i: usize = 0;
    while i < n
        invariant
            matches is Some,
            entries@ == matches.unwrap()@,
            n == entries@.len(),
            i <= n,
            forall|j: int|
                0 <= j < i ==> !(entries@[j].size is Some && entries@[j].size.unwrap() > 0),
        decreases n - i,
    {
        match entries[i].size {
            Some(sz) => if sz > 0 {
                proof {
                    assert(0 <= i < matches.unwrap()@.len() && matches.unwrap()@[i
                        as int].size is Some && matches.unwrap()@[i as int].size.unwrap() > 0);
                }
                return true;
            },
            None => {},
        }
        i += 1;
    }
    false
}

} // verus!
