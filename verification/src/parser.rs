//! The parser that ties the resolver to the real filesystem.
//!
//! [`PathObjectParser::parse_ref`] rejects an empty argument before any
//! filesystem access, normalizes the argument against the injected
//! working directory, and hands it to [`PathObjectParser::parse_path`],
//! which probes the filesystem in stages — the verbatim string first,
//! then only the fragments the grammars actually need — and settles the
//! answer with the verified decision core. The probes are the only
//! unverified inputs; each result is proved to be the resolution policy
//! [`spec_resolve`] applied to the probes that were made.

use vstd::prelude::*;

use crate::laws::{lemma_position_comes_from_grammar, position_from_grammar};
use crate::num::parse_number;
use crate::probe::{probe_path, FsProbe, ProbeSnap};
use crate::resolve::{outcome_of, resolve_with_probes, spec_resolve, Outcome, PathObject, ResolveError};
use crate::text::split_tail;

verus! {

/// Every error outcome other than the empty-argument report carries
/// `abs`, the normalized argument, for context.
pub open spec fn carries_argument(o: Outcome, abs: Seq<char>) -> bool {
    match o {
        Outcome::ErrInvalidLine(_, _, a) => a == abs,
        Outcome::ErrInvalidColumn(_, _, a) => a == abs,
        Outcome::ErrInvalidBoth(_, _, _, _, a) => a == abs,
        Outcome::ErrNotAFile(_, a) => a == abs,
        Outcome::ErrOtherIo(_, _, a) => a == abs,
        Outcome::ErrNoMatch(a) => a == abs,
        _ => true,
    }
}

/// The resolution policy never reports an empty argument: that report
/// is made before resolution starts.
pub proof fn lemma_resolve_never_empty(abs: Seq<char>, d: ProbeSnap, pp: ProbeSnap, pq: ProbeSnap)
    ensures
        spec_resolve(abs, d, pp, pq) != Outcome::ErrEmpty,
{
}

/// Every error the policy yields for `abs` carries `abs` for context.
pub proof fn lemma_resolve_error_context(
    abs: Seq<char>,
    d: ProbeSnap,
    pp: ProbeSnap,
    pq: ProbeSnap,
)
    ensures
        carries_argument(spec_resolve(abs, d, pp, pq), abs),
{
}

/// `s` is an absolute path: it begins with a separator.
pub open spec fn is_absolute_spec(s: Seq<char>) -> bool {
    s.len() > 0 && s[0] == '/'
}

/// The normalized form of `arg` against the working directory `base`:
/// an absolute argument passes through unchanged, as does any argument
/// when no working directory is known (the degraded, non-fatal case);
/// otherwise the argument is joined onto `base` with a separator.
pub open spec fn normalize_spec(base: Seq<char>, arg: Seq<char>) -> Seq<char> {
    if is_absolute_spec(arg) || base.len() == 0 {
        arg
    } else if base.last() == '/' {
        base + arg
    } else {
        base + seq!['/'] + arg
    }
}

/// Make `arg` absolute by joining it onto `base` when it is relative.
/// No error is possible at this stage.
pub fn normalize_argument(base: &String, arg: &String) -> (r: String)
    ensures
        r@ == normalize_spec(base@, arg@),
{
    let alen = arg.as_str().unicode_len();
    if alen > 0 && arg.as_str().get_char(0) == '/' {
        return arg.clone();
    }
    let blen = base.as_str().unicode_len();
    if blen == 0 {
        return arg.clone();
    }
    if base.as_str().get_char(blen - 1) == '/' {
        base.clone().concat(arg.as_str())
    } else {
        let joined = base.clone().concat("/").concat(arg.as_str());
        proof {
            reveal_strlit("/");
            assert(("/")@ =~= seq!['/']);
        }
        joined
    }
}

/// Resolves one command-line path argument against the filesystem,
/// using the working directory it was constructed with to make
/// relative arguments absolute. The working directory is computed once
/// by the caller and never changes afterwards.
#[derive(Debug, Clone)]
pub struct PathObjectParser {
    pub working_dir: String,
}

impl PathObjectParser {
    /// A parser that joins relative arguments onto `working_dir`. Pass
    /// an empty string when the working directory cannot be
    /// determined; arguments are then used as given.
    pub fn new(working_dir: String) -> (r: PathObjectParser)
        ensures
            r.working_dir@ == working_dir@,
    {
        PathObjectParser { working_dir }
    }

    /// Resolve the normalized argument `path`. The result is the
    /// resolution policy applied to the probes made: the verbatim
    /// probe of `path` always, then only the fragment probes the
    /// grammars need — and any probe the policy ignores is irrelevant
    /// to the result.
    pub fn parse_path(path: &String) -> (r: Result<PathObject, ResolveError>)
        ensures
            exists|d: ProbeSnap, pp: ProbeSnap, pq: ProbeSnap|
                outcome_of(r) == spec_resolve(path@, d, pp, pq),
            outcome_of(r) != Outcome::ErrEmpty,
            carries_argument(outcome_of(r), path@),
            (match outcome_of(r) {
                Outcome::FileAt(_, ln, cn) => position_from_grammar(path@, ln, cn),
                _ => true,
            }),
    {
        let direct = probe_path(path);
        let hit = match &direct {
            FsProbe::FoundFile(_) => true,
            FsProbe::FoundDir(_) => true,
            _ => false,
        };
        let none1 = FsProbe::Missing;
        let none2 = FsProbe::Missing;
        let r = if hit {
            resolve_with_probes(path, &direct, &none1, &none2)
        } else {
            match split_tail(path.as_str()) {
                None => resolve_with_probes(path, &direct, &none1, &none2),
                Some(parts) => {
                    let (q, c) = parts;
                    match split_tail(q.as_str()) {
                        Some(pl) => {
                            let (p, l) = pl;
                            let lr = parse_number(l.as_str());
                            let cr = parse_number(c.as_str());
                            match (&lr, &cr) {
                                (Ok(_), Ok(_)) => {
                                    let pprobe = probe_path(&p);
                                    let deeper = match &pprobe {
                                        FsProbe::Missing => true,
                                        FsProbe::Failed(_) => true,
                                        _ => false,
                                    };
                                    if deeper {
                                        let qprobe = probe_path(&q);
                                        resolve_with_probes(path, &direct, &pprobe, &qprobe)
                                    } else {
                                        resolve_with_probes(path, &direct, &pprobe, &none2)
                                    }
                                },
                                (Err(_), Ok(_)) => {
                                    let qprobe = probe_path(&q);
                                    resolve_with_probes(path, &direct, &none1, &qprobe)
                                },
                                _ => resolve_with_probes(path, &direct, &none1, &none2),
                            }
                        },
                        None => match parse_number(c.as_str()) {
                            Ok(_) => {
                                let qprobe = probe_path(&q);
                                resolve_with_probes(path, &direct, &none1, &qprobe)
                            },
                            Err(_) => resolve_with_probes(path, &direct, &none1, &none2),
                        },
                    }
                },
            }
        };
        proof {
            assert forall|d: ProbeSnap, pp: ProbeSnap, pq: ProbeSnap|
                (match #[trigger] spec_resolve(path@, d, pp, pq) {
                    Outcome::FileAt(_, ln, cn) => position_from_grammar(path@, ln, cn),
                    _ => true,
                }) by {
                lemma_position_comes_from_grammar(path@, d, pp, pq);
            }
        }
        r
    }

    /// Resolve the raw argument `value`: report an empty argument
    /// before touching the filesystem, otherwise normalize it against
    /// the working directory and resolve it.
    pub fn parse_ref(&self, value: &String) -> (r: Result<PathObject, ResolveError>)
        ensures
            (value@.len() == 0) <==> (outcome_of(r) == Outcome::ErrEmpty),
            value@.len() == 0 ==> r == Err::<PathObject, ResolveError>(ResolveError::EmptyArgument),
            value@.len() > 0 ==> exists|d: ProbeSnap, pp: ProbeSnap, pq: ProbeSnap|
                outcome_of(r) == spec_resolve(normalize_spec(self.working_dir@, value@), d, pp, pq),
            value@.len() > 0 ==> carries_argument(
                outcome_of(r),
                normalize_spec(self.working_dir@, value@),
            ),
            value@.len() > 0 ==> (match outcome_of(r) {
                Outcome::FileAt(_, ln, cn) => position_from_grammar(
                    normalize_spec(self.working_dir@, value@),
                    ln,
                    cn,
                ),
                _ => true,
            }),
    {
        if value.as_str().is_empty() {
            return Err(ResolveError::EmptyArgument);
        }
        let abs = normalize_argument(&self.working_dir, value);
        Self::parse_path(&abs)
    }
}

} // verus!
