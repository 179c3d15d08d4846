//! Path text helpers: tilde expansion and the candidate list of a command
//! search.  Nothing here touches the filesystem; the probes on the
//! candidates happen outside the library.

use vstd::prelude::*;

verus! {

/// The path begins with a tilde.
pub open spec fn starts_tilde(s: Seq<char>) -> bool {
    s.len() > 0 && s[0] == '~'
}

/// Relies on `shellexpand::tilde`: only a bare leading `~`, or a leading
/// `~/`, is rewritten, to the resolved home directory followed by the rest
/// of the path; a path without a leading tilde, or in the `~user` form,
/// comes back unchanged, as does one whose home directory cannot be
/// resolved.
#[verifier::external_body]
pub fn expand_path(path: &str) -> (r: String)
    ensures
        !starts_tilde(path@) ==> r@ == path@,
        path@.len() >= 2 && path@[0] == '~' && path@[1] != '/' ==> r@ == path@,
        starts_tilde(path@) && (path@.len() == 1 || path@[1] == '/') ==> r@.len() >= path@.len()
            - 1 && r@.skip(r@.len() - (path@.len() - 1)) == path@.skip(1),
{
    shellexpand::tilde(path).into_owned()
}

/// The text holds a path separator.
pub open spec fn has_separator(s: Seq<char>) -> bool {
    exists|i: int| 0 <= i < s.len() && s[i] == '/'
}

fn contains_separator(s: &str) -> (r: bool)
    ensures
        r == has_separator(s@),
{
    let len = s.unicode_len();
    let mut i: usize = 0;
    while i < len
        invariant
            len == s@.len(),
            i <= len,
            forall|j: int| 0 <= j < i ==> s@[j] != '/',
        decreases len - i,
    {
        if s.get_char(i) == '/' {
            return true;
        }
        i += 1;
    }
    false
}

/// The position of the first colon, or the length if there is none.
pub open spec fn colon_run(s: Seq<char>) -> int
    decreases s.len(),
{
    if s.len() == 0 || s[0] == ':' {
        0
    } else {
        1 + colon_run(s.skip(1))
    }
}

/// The colon-separated pieces of a sequence, as a search path has them.
pub open spec fn split_colons(s: Seq<char>) -> Seq<Seq<char>>
    decreases s.len(),
{
    let a = colon_run(s);
    if a < 0 || a >= s.len() {
        seq![s]
    } else {
        seq![s.take(a)] + split_colons(s.skip(a + 1))
    }
}

/// The candidate a search-path entry yields for a command: the entry, a
/// separator and the command, or the bare command for an empty entry.
pub open spec fn candidate_of(dir: Seq<char>, cmd: Seq<char>) -> Seq<char> {
    if dir.len() == 0 {
        cmd
    } else {
        dir + "/"@ + cmd
    }
}

proof fn lemma_colon_run_at(s: Seq<char>, i: int)
    requires
        0 <= i <= s.len(),
        forall|j: int| 0 <= j < i ==> s[j] != ':',
        i == s.len() || s[i] == ':',
    ensures
        colon_run(s) == i,
    decreases s.len(),
{
    if s.len() == 0 {
    } else if i == 0 {
    } else {
        assert(forall|j: int| 0 <= j < i - 1 ==> s.skip(1)[j] == s[j + 1]);
        lemma_colon_run_at(s.skip(1), i - 1);
    }
}

/// Finds the next colon at or after `from`, or the end of the string.
fn find_colon(p: &str, len: usize, from: usize) -> (d: usize)
    requires
        len == p@.len(),
        from <= len,
    ensures
        from <= d <= len,
        forall|j: int| from <= j < d ==> p@[j] != ':',
        d == len || p@[d as int] == ':',
{
    let mut d: usize = from;
    while d < len
        invariant
            len == p@.len(),
            from <= d <= len,
            forall|j: int| from <= j < d ==> p@[j] != ':',
        decreases len - d,
    {
        if p.get_char(d) == ':' {
            return d;
        }
        d += 1;
    }
    d
}

/// Builds the candidate for one search-path entry.
fn make_candidate(dir: &str, cmd: &str) -> (r: String)
    ensures
        r@ == candidate_of(dir@, cmd@),
{
    let dlen = dir.unicode_len();
    if dlen == 0 {
        return cmd.to_owned();
    }
    let mut r = dir.to_owned();
    r.append("/");
    r.append(cmd);
    r
}

/// The candidate paths a command search probes, in order: the command
/// itself when it names a path, else each search-path entry joined with
/// the command; no search path yields no candidates.
pub open spec fn candidates_spec(cmd: Seq<char>, path_var: Option<Seq<char>>) -> Seq<Seq<char>> {
    if has_separator(cmd) {
        seq![cmd]
    } else {
        match path_var {
            Some(p) => split_colons(p).map_values(|d: Seq<char>| candidate_of(d, cmd)),
            None => Seq::empty(),
        }
    }
}

/// Lists the paths a command search must probe for existence and
/// executability.
pub fn command_candidates(command: &str, path_var: &Option<String>) -> (r: Vec<String>)
    ensures
        r@.map_values(|t: String| t@) == candidates_spec(
            command@,
            match path_var {
                Some(p) => Some(p@),
                None => None,
            },
        ),
{
    let mut r: Vec<String> = Vec::new();
    if contains_separator(command) {
        r.push(command.to_owned());
        proof {
            assert(r@.map_values(|t: String| t@) =~= seq![command@]);
        }
        return r;
    }
    match path_var {
        None => {
            proof {
                assert(r@.map_values(|t: String| t@) =~= Seq::<Seq<char>>::empty());
            }
            r
        },
        Some(p) => {
            let ps = p.as_str();
            let len = ps.unicode_len();
            let mut at: usize = 0;
            proof {
                assert(ps@.skip(0) =~= ps@);
                assert(r@.map_values(|t: String| t@) =~= Seq::<Seq<char>>::empty());
            }
            loop
                invariant
                    len == ps@.len(),
                    at <= len,
                    ps@ == p@,
                    !has_separator(command@),
                    path_var is Some,
                    path_var.unwrap()@ == p@,
                    split_colons(p@).map_values(|d: Seq<char>| candidate_of(d, command@)) =~= r@
                        .map_values(|t: String| t@) + split_colons(ps@.skip(at as int)).map_values(
                        |d: Seq<char>| candidate_of(d, command@),
                    ),
                decreases len - at,
            {
                let ghost rem = ps@.skip(at as int);
                let ghost built = r@.map_values(|t: String| t@);
                let cut = find_colon(ps, len, at);
                proof {
                    assert(forall|j: int| 0 <= j < cut - at ==> rem[j] == ps@[at + j]);
                    if cut < len {
                        assert(rem[cut - at] == ps@[cut as int]);
                    }
                    lemma_colon_run_at(rem, cut - at);
                }
                let dir = ps.substring_char(at, cut);
                let cand = make_candidate(dir, command);
                r.push(cand);
                proof {
                    assert(dir@ =~= rem.take(cut - at));
                    assert(r@.map_values(|t: String| t@) =~= built + seq![
                        candidate_of(rem.take(cut - at), command@),
                    ]);
                }
                if cut == len {
                    proof {
                        assert(colon_run(rem) == rem.len());
                        assert(split_colons(rem) == seq![rem]);
                        assert(rem.take(cut - at) =~= rem);
                        assert(split_colons(rem).map_values(|d: Seq<char>| candidate_of(
                            d,
                            command@,
                        )) =~= seq![candidate_of(rem, command@)]);
                        assert(split_colons(p@).map_values(|d: Seq<char>| candidate_of(
                            d,
                            command@,
                        )) =~= r@.map_values(|t: String| t@));
                        assert(!has_separator(command@));
                        assert(candidates_spec(command@, Some(p@)) =~= split_colons(
                            p@,
                        ).map_values(|d: Seq<char>| candidate_of(d, command@)));
                        assert(candidates_spec(command@, Some(p@)) =~= r@.map_values(
                            |t: String| t@,
                        ));
                    }
                    return r;
                }
                proof {
                    assert(colon_run(rem) == cut - at < rem.len());
                    assert(split_colons(rem) == seq![rem.take(cut - at)] + split_colons(
                        rem.skip(cut - at + 1),
                    ));
                    assert(rem.skip(cut - at + 1) =~= ps@.skip(cut + 1));
                    assert(split_colons(rem).map_values(|d: Seq<char>| candidate_of(d, command@))
                        =~= seq![candidate_of(rem.take(cut - at), command@)] + split_colons(
                        ps@.skip(cut + 1),
                    ).map_values(|d: Seq<char>| candidate_of(d, command@)));
                }
                at = cut + 1;
            }
        },
    }
}

/// Some probed candidate turned out executable.
pub fn any_candidate_hit(results: &Vec<bool>) -> (r: bool)
    ensures
        r == exists|i: int| 0 <= i < results@.len() && results@[i],
{
    let n = results.len();
    let mut i: usize = 0;
    while i < n
        invariant
            n == results@.len(),
            i <= n,
            forall|j: int| 0 <= j < i ==> !results@[j],
        decreases n - i,
    {
        if results[i] {
            return true;
        }
        i += 1;
    }
    false
}

} // verus!
