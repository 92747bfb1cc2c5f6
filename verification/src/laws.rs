//! Laws of the resolution policy.
//!
//! Each proof function here states, over [`spec_resolve`], a guarantee
//! the resolver gives its callers: determinism, the precedence of the
//! verbatim reading, what each grammar returns when its path fragment
//! is a file, the reconstruction that favours the longest existing
//! filename, and the error owed when nothing matches.

use vstd::prelude::*;

use crate::num::{spec_parse_number, NumError};
use crate::probe::ProbeSnap;
use crate::resolve::{spec_resolve, Outcome};
use crate::text::{lemma_tail_parts_are, tail_parts, tail_split_ok, tail_splittable};

verus! {

/// The verbatim probe of the argument found neither a regular file nor
/// a directory, so resolution falls through to the grammars.
pub open spec fn direct_missed(d: ProbeSnap) -> bool {
    match d {
        ProbeSnap::FoundFile(_) => false,
        ProbeSnap::FoundDir(_) => false,
        _ => true,
    }
}

/// The line `ln` and column `cn` are read off the trailing fragments
/// of `abs` itself: either both fragments of the line-and-column cut
/// parse to exactly these values, or the column is the default 1 and
/// the final fragment parses to the line.
pub open spec fn position_from_grammar(abs: Seq<char>, ln: usize, cn: usize) -> bool {
    &&& tail_splittable(abs)
    &&& {
        let qc = tail_parts(abs);
        ||| {
            &&& tail_splittable(qc.0)
            &&& spec_parse_number(tail_parts(qc.0).1) == Ok::<usize, NumError>(ln)
            &&& spec_parse_number(qc.1) == Ok::<usize, NumError>(cn)
        }
        ||| {
            &&& cn == 1
            &&& spec_parse_number(qc.1) == Ok::<usize, NumError>(ln)
        }
    }
}

/// A position is never invented: whatever the probes answer, a result
/// that carries a line and column takes them from the argument's own
/// trailing fragments, the column defaulting to 1 when the line comes
/// from the final fragment alone.
pub proof fn lemma_position_comes_from_grammar(
    abs: Seq<char>,
    d: ProbeSnap,
    pp: ProbeSnap,
    pq: ProbeSnap,
)
    ensures
        (match spec_resolve(abs, d, pp, pq) {
            Outcome::FileAt(_, ln, cn) => position_from_grammar(abs, ln, cn),
            _ => true,
        }),
{
}

/// Resolution is deterministic: the same argument against unchanged
/// probe answers — an unchanged filesystem — yields the same result.
pub proof fn lemma_resolution_deterministic(
    abs: Seq<char>,
    d: ProbeSnap,
    pp: ProbeSnap,
    pq: ProbeSnap,
    r1: Outcome,
    r2: Outcome,
)
    requires
        r1 == spec_resolve(abs, d, pp, pq),
        r2 == spec_resolve(abs, d, pp, pq),
    ensures
        r1 == r2,
{
}

/// Verbatim precedence: when the argument itself names an existing
/// regular file, the result is that file with no position, whatever
/// the fragment probes would say.
pub proof fn lemma_verbatim_precedence(
    abs: Seq<char>,
    cf: Seq<char>,
    pp: ProbeSnap,
    pq: ProbeSnap,
)
    ensures
        spec_resolve(abs, ProbeSnap::FoundFile(cf), pp, pq) == Outcome::FileNoPos(cf),
{
}

/// Directory pass-through: when the argument itself names an existing
/// directory, the result is that directory, whatever the fragment
/// probes would say.
pub proof fn lemma_directory_passthrough(
    abs: Seq<char>,
    cd: Seq<char>,
    pp: ProbeSnap,
    pq: ProbeSnap,
)
    ensures
        spec_resolve(abs, ProbeSnap::FoundDir(cd), pp, pq) == Outcome::Dir(cd),
{
}

/// Line-and-column parse: when the verbatim probe misses, the argument
/// cuts as `p:l:c` with numeric `l` and `c`, and `p` canonicalizes to a
/// regular file, the result is that file at line `l`, column `c`.
pub proof fn lemma_line_column_parse(
    abs: Seq<char>,
    p: Seq<char>,
    l: Seq<char>,
    c: Seq<char>,
    d: ProbeSnap,
    cp: Seq<char>,
    pq: ProbeSnap,
    ln: usize,
    cn: usize,
)
    requires
        direct_missed(d),
        tail_split_ok(abs, p + seq![':'] + l, c),
        tail_split_ok(p + seq![':'] + l, p, l),
        spec_parse_number(l) == Ok::<usize, NumError>(ln),
        spec_parse_number(c) == Ok::<usize, NumError>(cn),
    ensures
        spec_resolve(abs, d, ProbeSnap::FoundFile(cp), pq) == Outcome::FileAt(cp, ln, cn),
{
    lemma_tail_parts_are(abs, p + seq![':'] + l, c);
    lemma_tail_parts_are(p + seq![':'] + l, p, l);
}

/// Line-only parse: when the verbatim probe misses, the argument cuts
/// only as `q:c` with numeric `c`, and `q` canonicalizes to a regular
/// file, the result is that file at line `c`, column 1.
pub proof fn lemma_line_parse(
    abs: Seq<char>,
    q: Seq<char>,
    c: Seq<char>,
    d: ProbeSnap,
    pp: ProbeSnap,
    cq: Seq<char>,
    cn: usize,
)
    requires
        direct_missed(d),
        tail_split_ok(abs, q, c),
        !tail_splittable(q),
        spec_parse_number(c) == Ok::<usize, NumError>(cn),
    ensures
        spec_resolve(abs, d, pp, ProbeSnap::FoundFile(cq)) == Outcome::FileAt(cq, cn, 1),
{
    lemma_tail_parts_are(abs, q, c);
}

/// Ambiguity reconstruction, non-numeric line: when the argument cuts
/// as `p:l:c` but `l` is not a number, the line fragment is collapsed
/// back into the filename; if that longer name `p:l` canonicalizes to a
/// regular file, the result is that file at line `c`, column 1.
pub proof fn lemma_ambiguity_reconstruction(
    abs: Seq<char>,
    p: Seq<char>,
    l: Seq<char>,
    c: Seq<char>,
    d: ProbeSnap,
    pp: ProbeSnap,
    cq: Seq<char>,
    le: NumError,
    cn: usize,
)
    requires
        direct_missed(d),
        tail_split_ok(abs, p + seq![':'] + l, c),
        tail_split_ok(p + seq![':'] + l, p, l),
        spec_parse_number(l) == Err::<usize, NumError>(le),
        spec_parse_number(c) == Ok::<usize, NumError>(cn),
    ensures
        spec_resolve(abs, d, pp, ProbeSnap::FoundFile(cq)) == Outcome::FileAt(cq, cn, 1),
{
    lemma_tail_parts_are(abs, p + seq![':'] + l, c);
    lemma_tail_parts_are(p + seq![':'] + l, p, l);
}

/// Ambiguity reconstruction, missing path: when the argument cuts as
/// `p:l:c` with numeric fragments but `p` names nothing, and the longer
/// name `p:l` canonicalizes to a regular file, the result is that file
/// at line `c`, column 1 — the longest existing filename wins.
pub proof fn lemma_reconstruction_after_missing(
    abs: Seq<char>,
    p: Seq<char>,
    l: Seq<char>,
    c: Seq<char>,
    d: ProbeSnap,
    cq: Seq<char>,
    ln: usize,
    cn: usize,
)
    requires
        direct_missed(d),
        tail_split_ok(abs, p + seq![':'] + l, c),
        tail_split_ok(p + seq![':'] + l, p, l),
        spec_parse_number(l) == Ok::<usize, NumError>(ln),
        spec_parse_number(c) == Ok::<usize, NumError>(cn),
    ensures
        spec_resolve(abs, d, ProbeSnap::Missing, ProbeSnap::FoundFile(cq)) == Outcome::FileAt(
            cq,
            cn,
            1,
        ),
{
    lemma_tail_parts_are(abs, p + seq![':'] + l, c);
    lemma_tail_parts_are(p + seq![':'] + l, p, l);
}

/// A real but wrong target is terminal: when the line-and-column
/// grammar's path fragment canonicalizes to a directory, the result is
/// the not-a-file error for that fragment, with no fallback to the
/// looser grammar.
pub proof fn lemma_grammar_target_not_file(
    abs: Seq<char>,
    p: Seq<char>,
    l: Seq<char>,
    c: Seq<char>,
    d: ProbeSnap,
    cp: Seq<char>,
    pq: ProbeSnap,
    ln: usize,
    cn: usize,
)
    requires
        direct_missed(d),
        tail_split_ok(abs, p + seq![':'] + l, c),
        tail_split_ok(p + seq![':'] + l, p, l),
        spec_parse_number(l) == Ok::<usize, NumError>(ln),
        spec_parse_number(c) == Ok::<usize, NumError>(cn),
    ensures
        spec_resolve(abs, d, ProbeSnap::FoundDir(cp), pq) == Outcome::ErrNotAFile(p, abs),
{
    lemma_tail_parts_are(abs, p + seq![':'] + l, c);
    lemma_tail_parts_are(p + seq![':'] + l, p, l);
}

/// Non-existent everything: when the verbatim probe misses, both
/// fragments of `p:l:c` are numeric, and neither `p` nor the
/// reconstruction `p:l` names anything, the result is the no-match
/// error carrying the normalized argument.
pub proof fn lemma_no_match(
    abs: Seq<char>,
    p: Seq<char>,
    l: Seq<char>,
    c: Seq<char>,
    d: ProbeSnap,
    ln: usize,
    cn: usize,
)
    requires
        direct_missed(d),
        tail_split_ok(abs, p + seq![':'] + l, c),
        tail_split_ok(p + seq![':'] + l, p, l),
        spec_parse_number(l) == Ok::<usize, NumError>(ln),
        spec_parse_number(c) == Ok::<usize, NumError>(cn),
    ensures
        spec_resolve(abs, d, ProbeSnap::Missing, ProbeSnap::Missing) == Outcome::ErrNoMatch(abs),
{
    lemma_tail_parts_are(abs, p + seq![':'] + l, c);
    lemma_tail_parts_are(p + seq![':'] + l, p, l);
}

/// An argument with no usable colon cut that names nothing verbatim
/// yields the no-match error carrying the normalized argument.
pub proof fn lemma_no_grammar_no_match(abs: Seq<char>, d: ProbeSnap, pp: ProbeSnap, pq: ProbeSnap)
    requires
        direct_missed(d),
        !tail_splittable(abs),
    ensures
        spec_resolve(abs, d, pp, pq) == Outcome::ErrNoMatch(abs),
{
}

/// Invalid numerics: when the argument cuts as `p:l:c`, `l` is not a
/// number while `c` is, and the reconstruction `p:l` names nothing, the
/// result is the invalid-line error naming `l` — whatever the probe of
/// `p` would have said.
pub proof fn lemma_invalid_line_reported(
    abs: Seq<char>,
    p: Seq<char>,
    l: Seq<char>,
    c: Seq<char>,
    d: ProbeSnap,
    pp: ProbeSnap,
    le: NumError,
    cn: usize,
)
    requires
        direct_missed(d),
        tail_split_ok(abs, p + seq![':'] + l, c),
        tail_split_ok(p + seq![':'] + l, p, l),
        spec_parse_number(l) == Err::<usize, NumError>(le),
        spec_parse_number(c) == Ok::<usize, NumError>(cn),
    ensures
        spec_resolve(abs, d, pp, ProbeSnap::Missing) == Outcome::ErrInvalidLine(l, le, abs),
{
    lemma_tail_parts_are(abs, p + seq![':'] + l, c);
    lemma_tail_parts_are(p + seq![':'] + l, p, l);
}

} // verus!
