//! The path specifier resolver.
//!
//! An argument is normalized to an absolute path string, probed
//! verbatim against the filesystem, and — when the verbatim probe does
//! not settle it — decomposed under two suffix grammars: first
//! `path:line:column`, then `path:line`. A grammar's path fragment must
//! canonicalize to a regular file; when it does not, the resolver
//! collapses the line fragment back into the filename (the longest
//! surviving filename interpretation) before giving up. Total failure
//! produces an error naming the fragment that could not be understood.
//!
//! The decision policy is the spec function [`spec_resolve`]: it maps
//! the normalized argument and the outcomes of the at most three
//! filesystem probes to the result. Every function here is proved
//! against it, for every possible probe outcome.

use vstd::prelude::*;

use crate::num::{parse_number, spec_parse_number, NumError};
use crate::probe::{probe_path, FsProbe, ProbeSnap};
use crate::text::{lemma_tail_parts_are, split_tail, tail_parts, tail_splittable};

verus! {

/// A 1-based cursor position inside a file. When an argument supplies
/// only a line, the column defaults to 1.
#[derive(Debug, Clone, Copy, PartialEq, Eq, Structural)]
pub struct LineCol {
    pub line: usize,
    pub column: usize,
}

/// A resolved path argument: an existing directory, or an existing
/// regular file with an optional cursor position. The carried strings
/// are canonical paths as reported by the filesystem.
#[derive(Debug, Clone, PartialEq, Eq)]
pub enum PathObject {
    File(String, Option<LineCol>),
    Directory(String),
}

/// Why an argument could not be resolved. Every variant except
/// `EmptyArgument` carries the normalized argument for context.
#[derive(Debug, Clone, PartialEq, Eq)]
pub enum ResolveError {
    /// The raw argument was empty; no filesystem probe was made.
    EmptyArgument,
    /// A fragment meant as a line number did not parse.
    InvalidLine { text: String, cause: NumError, argument: String },
    /// A fragment meant as a column number did not parse.
    InvalidColumn { text: String, cause: NumError, argument: String },
    /// Both the line and the column fragment failed to parse.
    InvalidLineAndColumn {
        line_text: String,
        line_cause: NumError,
        column_text: String,
        column_cause: NumError,
        argument: String,
    },
    /// A path fragment canonicalized but names a directory or another
    /// non-regular-file entry where a file was required.
    NotAFile { path: String, argument: String },
    /// Canonicalization of a path fragment failed for a reason other
    /// than absence, such as a permission error.
    OtherIoFailure { path: String, detail: String, argument: String },
    /// No decomposition of the argument names anything on disk.
    NoMatch { argument: String },
}

/// Mathematical image of a resolution result.
pub enum Outcome {
    FileNoPos(Seq<char>),
    FileAt(Seq<char>, usize, usize),
    Dir(Seq<char>),
    ErrEmpty,
    ErrInvalidLine(Seq<char>, NumError, Seq<char>),
    ErrInvalidColumn(Seq<char>, NumError, Seq<char>),
    ErrInvalidBoth(Seq<char>, NumError, Seq<char>, NumError, Seq<char>),
    ErrNotAFile(Seq<char>, Seq<char>),
    ErrOtherIo(Seq<char>, Seq<char>, Seq<char>),
    ErrNoMatch(Seq<char>),
}

/// The image of an exec result under the views of its strings.
pub open spec fn outcome_of(r: Result<PathObject, ResolveError>) -> Outcome {
    match r {
        Ok(po) => match po {
            PathObject::File(pp, opt) => match opt {
                Some(lc) => Outcome::FileAt(pp@, lc.line, lc.column),
                None => Outcome::FileNoPos(pp@),
            },
            PathObject::Directory(pp) => Outcome::Dir(pp@),
        },
        Err(e) => match e {
            ResolveError::EmptyArgument => Outcome::ErrEmpty,
            ResolveError::InvalidLine { text, cause, argument } => Outcome::ErrInvalidLine(
                text@,
                cause,
                argument@,
            ),
            ResolveError::InvalidColumn { text, cause, argument } => Outcome::ErrInvalidColumn(
                text@,
                cause,
                argument@,
            ),
            ResolveError::InvalidLineAndColumn {
                line_text,
                line_cause,
                column_text,
                column_cause,
                argument,
            } => Outcome::ErrInvalidBoth(line_text@, line_cause, column_text@, column_cause, argument@),
            ResolveError::NotAFile { path, argument } => Outcome::ErrNotAFile(path@, argument@),
            ResolveError::OtherIoFailure { path, detail, argument } => Outcome::ErrOtherIo(
                path@,
                detail@,
                argument@,
            ),
            ResolveError::NoMatch { argument } => Outcome::ErrNoMatch(argument@),
        },
    }
}

/// Resolution under the line-only grammar `q:c`, after the verbatim
/// probe missed: `q` is everything before the last colon, `c` the
/// fragment after it, and `pq` the probe of `q`. A directory where a
/// file is required is a real but wrong target, so it is terminal; an
/// unparsable fragment is reported, since the only longer filename
/// reading — the whole argument — was already probed verbatim.
pub open spec fn spec_resolve_line_only(
    abs: Seq<char>,
    q: Seq<char>,
    c: Seq<char>,
    pq: ProbeSnap,
) -> Outcome {
    match spec_parse_number(c) {
        Ok(cn) => match pq {
            ProbeSnap::FoundFile(cq) => Outcome::FileAt(cq, cn, 1),
            ProbeSnap::FoundDir(_) => Outcome::ErrNotAFile(q, abs),
            ProbeSnap::FoundOther(_) => Outcome::ErrNotAFile(q, abs),
            ProbeSnap::Missing => Outcome::ErrNoMatch(abs),
            ProbeSnap::Failed(e) => Outcome::ErrOtherIo(q, e, abs),
        },
        Err(ce) => Outcome::ErrInvalidLine(c, ce, abs),
    }
}

/// Resolution under the line-and-column grammar `p:l:c`, after the
/// verbatim probe missed. `pp` is the probe of `p`; `pq` the probe of
/// `q`, the reconstruction `p:l` that collapses the line fragment back
/// into the filename (which is also what the line-only grammar would
/// read as its path). The reconstruction is consulted when `p` does
/// not canonicalize or when `l` is not a number; a file found there
/// takes the column fragment's value as its line, with column 1.
pub open spec fn spec_resolve_line_column(
    abs: Seq<char>,
    p: Seq<char>,
    l: Seq<char>,
    c: Seq<char>,
    q: Seq<char>,
    pp: ProbeSnap,
    pq: ProbeSnap,
) -> Outcome {
    match spec_parse_number(l) {
        Ok(ln) => match spec_parse_number(c) {
            Ok(cn) => match pp {
                ProbeSnap::FoundFile(cp) => Outcome::FileAt(cp, ln, cn),
                ProbeSnap::FoundDir(_) => Outcome::ErrNotAFile(p, abs),
                ProbeSnap::FoundOther(_) => Outcome::ErrNotAFile(p, abs),
                ProbeSnap::Missing => match pq {
                    ProbeSnap::FoundFile(cq) => Outcome::FileAt(cq, cn, 1),
                    ProbeSnap::FoundDir(_) => Outcome::ErrNotAFile(q, abs),
                    ProbeSnap::FoundOther(_) => Outcome::ErrNotAFile(q, abs),
                    ProbeSnap::Missing => Outcome::ErrNoMatch(abs),
                    ProbeSnap::Failed(e2) => Outcome::ErrOtherIo(q, e2, abs),
                },
                ProbeSnap::Failed(e) => match pq {
                    ProbeSnap::FoundFile(cq) => Outcome::FileAt(cq, cn, 1),
                    ProbeSnap::FoundDir(_) => Outcome::ErrOtherIo(p, e, abs),
                    ProbeSnap::FoundOther(_) => Outcome::ErrOtherIo(p, e, abs),
                    ProbeSnap::Missing => Outcome::ErrOtherIo(p, e, abs),
                    ProbeSnap::Failed(_) => Outcome::ErrOtherIo(p, e, abs),
                },
            },
            Err(ce) => Outcome::ErrInvalidColumn(c, ce, abs),
        },
        Err(le) => match spec_parse_number(c) {
            Ok(cn) => match pq {
                ProbeSnap::FoundFile(cq) => Outcome::FileAt(cq, cn, 1),
                ProbeSnap::FoundDir(_) => Outcome::ErrNotAFile(q, abs),
                ProbeSnap::FoundOther(_) => Outcome::ErrNotAFile(q, abs),
                ProbeSnap::Missing => Outcome::ErrInvalidLine(l, le, abs),
                ProbeSnap::Failed(e2) => Outcome::ErrOtherIo(q, e2, abs),
            },
            Err(ce) => Outcome::ErrInvalidBoth(l, le, c, ce, abs),
        },
    }
}

/// Resolution once the verbatim probe has missed: cut at the last
/// colon; with two usable cuts the line-and-column grammar applies,
/// with one the line-only grammar, with none the argument matches
/// nothing.
pub open spec fn spec_resolve_grammar(abs: Seq<char>, pp: ProbeSnap, pq: ProbeSnap) -> Outcome {
    if !tail_splittable(abs) {
        Outcome::ErrNoMatch(abs)
    } else {
        let qc = tail_parts(abs);
        if tail_splittable(qc.0) {
            let pl = tail_parts(qc.0);
            spec_resolve_line_column(abs, pl.0, pl.1, qc.1, qc.0, pp, pq)
        } else {
            spec_resolve_line_only(abs, qc.0, qc.1, pq)
        }
    }
}

/// The full resolution policy for a normalized argument `abs`: `d` is
/// the verbatim probe of `abs`, `pp` the probe of the line-and-column
/// grammar's path fragment, `pq` the probe of the line-only grammar's
/// path fragment (equally, the reconstruction). The verbatim probe
/// always wins when it finds a file or a directory; probes that a
/// branch does not consult do not affect its result.
pub open spec fn spec_resolve(abs: Seq<char>, d: ProbeSnap, pp: ProbeSnap, pq: ProbeSnap) -> Outcome {
    match d {
        ProbeSnap::FoundFile(cf) => Outcome::FileNoPos(cf),
        ProbeSnap::FoundDir(cd) => Outcome::Dir(cd),
        _ => spec_resolve_grammar(abs, pp, pq),
    }
}

/// Resolve `abs` given the outcomes of the three probes it may need:
/// the pure decision core, verified for every combination of probe
/// answers. `direct` must be the probe of `abs` itself, `pp` of the
/// fragment before the last two colons, `pq` of the fragment before
/// the last colon; a probe that the decision does not consult may
/// carry anything.
pub fn resolve_with_probes(
    abs: &String,
    direct: &FsProbe,
    pp: &FsProbe,
    pq: &FsProbe,
) -> (r: Result<PathObject, ResolveError>)
    ensures
        outcome_of(r) == spec_resolve(abs@, direct@, pp@, pq@),
{
    match direct {
        FsProbe::FoundFile(cf) => {
            return Ok(PathObject::File(cf.clone(), None));
        },
        FsProbe::FoundDir(cd) => {
            return Ok(PathObject::Directory(cd.clone()));
        },
        FsProbe::FoundOther(_) => {},
        FsProbe::Missing => {},
        FsProbe::Failed(_) => {},
    }
    match split_tail(abs.as_str()) {
        None => Err(ResolveError::NoMatch { argument: abs.clone() }),
        Some(parts) => {
            let (q, c) = parts;
            proof {
                lemma_tail_parts_are(abs@, q@, c@);
            }
            match split_tail(q.as_str()) {
                Some(pl) => {
                    let (p, l) = pl;
                    proof {
                        lemma_tail_parts_are(q@, p@, l@);
                    }
                    let lr = parse_number(l.as_str());
                    let cr = parse_number(c.as_str());
                    match lr {
                        Ok(ln) => match cr {
                            Ok(cn) => match pp {
                                FsProbe::FoundFile(cp) => Ok(
                                    PathObject::File(
                                        cp.clone(),
                                        Some(LineCol { line: ln, column: cn }),
                                    ),
                                ),
                                FsProbe::FoundDir(_) => Err(
                                    ResolveError::NotAFile { path: p, argument: abs.clone() },
                                ),
                                FsProbe::FoundOther(_) => Err(
                                    ResolveError::NotAFile { path: p, argument: abs.clone() },
                                ),
                                FsProbe::Missing => match pq {
                                    FsProbe::FoundFile(cq) => Ok(
                                        PathObject::File(
                                            cq.clone(),
                                            Some(LineCol { line: cn, column: 1 }),
                                        ),
                                    ),
                                    FsProbe::FoundDir(_) => Err(
                                        ResolveError::NotAFile { path: q, argument: abs.clone() },
                                    ),
                                    FsProbe::FoundOther(_) => Err(
                                        ResolveError::NotAFile { path: q, argument: abs.clone() },
                                    ),
                                    FsProbe::Missing => Err(
                                        ResolveError::NoMatch { argument: abs.clone() },
                                    ),
                                    FsProbe::Failed(e2) => Err(
                                        ResolveError::OtherIoFailure {
                                            path: q,
                                            detail: e2.clone(),
                                            argument: abs.clone(),
                                        },
                                    ),
                                },
                                FsProbe::Failed(e) => match pq {
                                    FsProbe::FoundFile(cq) => Ok(
                                        PathObject::File(
                                            cq.clone(),
                                            Some(LineCol { line: cn, column: 1 }),
                                        ),
                                    ),
                                    _ => Err(
                                        ResolveError::OtherIoFailure {
                                            path: p,
                                            detail: e.clone(),
                                            argument: abs.clone(),
                                        },
                                    ),
                                },
                            },
                            Err(ce) => Err(
                                ResolveError::InvalidColumn {
                                    text: c,
                                    cause: ce,
                                    argument: abs.clone(),
                                },
                            ),
                        },
                        Err(le) => match cr {
                            Ok(cn) => match pq {
                                FsProbe::FoundFile(cq) => Ok(
                                    PathObject::File(
                                        cq.clone(),
                                        Some(LineCol { line: cn, column: 1 }),
                                    ),
                                ),
                                FsProbe::FoundDir(_) => Err(
                                    ResolveError::NotAFile { path: q, argument: abs.clone() },
                                ),
                                FsProbe::FoundOther(_) => Err(
                                    ResolveError::NotAFile { path: q, argument: abs.clone() },
                                ),
                                FsProbe::Missing => Err(
                                    ResolveError::InvalidLine {
                                        text: l,
                                        cause: le,
                                        argument: abs.clone(),
                                    },
                                ),
                                FsProbe::Failed(e2) => Err(
                                    ResolveError::OtherIoFailure {
                                        path: q,
                                        detail: e2.clone(),
                                        argument: abs.clone(),
                                    },
                                ),
                            },
                            Err(ce) => Err(
                                ResolveError::InvalidLineAndColumn {
                                    line_text: l,
                                    line_cause: le,
                                    column_text: c,
                                    column_cause: ce,
                                    argument: abs.clone(),
                                },
                            ),
                        },
                    }
                },
                None => match parse_number(c.as_str()) {
                    Ok(cn) => match pq {
                        FsProbe::FoundFile(cq) => Ok(
                            PathObject::File(cq.clone(), Some(LineCol { line: cn, column: 1 })),
                        ),
                        FsProbe::FoundDir(_) => Err(
                            ResolveError::NotAFile { path: q, argument: abs.clone() },
                        ),
                        FsProbe::FoundOther(_) => Err(
                            ResolveError::NotAFile { path: q, argument: abs.clone() },
                        ),
                        FsProbe::Missing => Err(ResolveError::NoMatch { argument: abs.clone() }),
                        FsProbe::Failed(e2) => Err(
                            ResolveError::OtherIoFailure {
                                path: q,
                                detail: e2.clone(),
                                argument: abs.clone(),
                            },
                        ),
                    },
                    Err(ce) => Err(
                        ResolveError::InvalidLine { text: c, cause: ce, argument: abs.clone() },
                    ),
                },
            }
        },
    }
}

} // verus!
