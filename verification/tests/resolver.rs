use path_specifier::num::{parse_number, NumError};
use path_specifier::parser::{normalize_argument, PathObjectParser};
use path_specifier::probe::FsProbe;
use path_specifier::resolve::{resolve_with_probes, LineCol, PathObject, ResolveError};
use path_specifier::text::split_tail;

fn s(x: &str) -> String {
    String::from(x)
}

#[test]
fn idempotence_same_probes_same_result() {
    let abs = s("/w/foo.txt:10:5");
    let d = FsProbe::Missing;
    let pp = FsProbe::FoundFile(s("/w/foo.txt"));
    let pq = FsProbe::Missing;
    let r1 = resolve_with_probes(&abs, &d, &pp, &pq);
    let r2 = resolve_with_probes(&abs, &d, &pp, &pq);
    assert_eq!(r1, r2);
}

#[test]
fn verbatim_file_wins_over_grammar() {
    let abs = s("/w/a:3:4");
    let d = FsProbe::FoundFile(s("/w/a:3:4"));
    // Fragment probes would point elsewhere; they must be ignored.
    let pp = FsProbe::FoundFile(s("/w/a"));
    let pq = FsProbe::FoundFile(s("/w/a:3"));
    let r = resolve_with_probes(&abs, &d, &pp, &pq);
    assert_eq!(r, Ok(PathObject::File(s("/w/a:3:4"), None)));
}

#[test]
fn line_and_column_parse() {
    let abs = s("/w/foo.txt:10:5");
    let r = resolve_with_probes(
        &abs,
        &FsProbe::Missing,
        &FsProbe::FoundFile(s("/w/foo.txt")),
        &FsProbe::Missing,
    );
    assert_eq!(
        r,
        Ok(PathObject::File(
            s("/w/foo.txt"),
            Some(LineCol { line: 10, column: 5 })
        ))
    );
}

#[test]
fn line_only_parse_defaults_column_to_one() {
    let abs = s("/w/foo.txt:10");
    let r = resolve_with_probes(
        &abs,
        &FsProbe::Missing,
        &FsProbe::Missing,
        &FsProbe::FoundFile(s("/w/foo.txt")),
    );
    assert_eq!(
        r,
        Ok(PathObject::File(
            s("/w/foo.txt"),
            Some(LineCol { line: 10, column: 1 })
        ))
    );
}

#[test]
fn ambiguity_reconstruction_collapses_line_into_filename() {
    // "build:log:7": the middle fragment is not a number, so the
    // resolver reconstructs the filename "build:log" and keeps 7 as the
    // line.
    let abs = s("/w/build:log:7");
    let r = resolve_with_probes(
        &abs,
        &FsProbe::Missing,
        &FsProbe::Missing,
        &FsProbe::FoundFile(s("/w/build:log")),
    );
    assert_eq!(
        r,
        Ok(PathObject::File(
            s("/w/build:log"),
            Some(LineCol { line: 7, column: 1 })
        ))
    );
}

#[test]
fn reconstruction_after_missing_path_keeps_column_as_line() {
    // "a:2024:7": both fragments are numeric, but "a" names nothing
    // while "a:2024" is a real file; 7 becomes the line.
    let abs = s("/w/a:2024:7");
    let r = resolve_with_probes(
        &abs,
        &FsProbe::Missing,
        &FsProbe::Missing,
        &FsProbe::FoundFile(s("/w/a:2024")),
    );
    assert_eq!(
        r,
        Ok(PathObject::File(
            s("/w/a:2024"),
            Some(LineCol { line: 7, column: 1 })
        ))
    );
}

#[test]
fn directory_passes_through() {
    let abs = s("/w/src");
    let r = resolve_with_probes(
        &abs,
        &FsProbe::FoundDir(s("/w/src")),
        &FsProbe::Missing,
        &FsProbe::Missing,
    );
    assert_eq!(r, Ok(PathObject::Directory(s("/w/src"))));
}

#[test]
fn directory_where_file_required_is_not_a_file() {
    let abs = s("/w/src:1:1");
    let r = resolve_with_probes(
        &abs,
        &FsProbe::Missing,
        &FsProbe::FoundDir(s("/w/src")),
        &FsProbe::Missing,
    );
    assert_eq!(
        r,
        Err(ResolveError::NotAFile {
            path: s("/w/src"),
            argument: s("/w/src:1:1"),
        })
    );
}

#[test]
fn non_regular_entry_where_file_required_is_not_a_file() {
    let abs = s("/w/dev:2");
    let r = resolve_with_probes(
        &abs,
        &FsProbe::Missing,
        &FsProbe::Missing,
        &FsProbe::FoundOther(s("/w/dev")),
    );
    assert_eq!(
        r,
        Err(ResolveError::NotAFile {
            path: s("/w/dev"),
            argument: s("/w/dev:2"),
        })
    );
}

#[test]
fn nothing_exists_anywhere_is_no_match() {
    let abs = s("/w/does/not/exist:5:5");
    let r = resolve_with_probes(&abs, &FsProbe::Missing, &FsProbe::Missing, &FsProbe::Missing);
    assert_eq!(
        r,
        Err(ResolveError::NoMatch {
            argument: s("/w/does/not/exist:5:5"),
        })
    );
}

#[test]
fn invalid_line_reported_when_no_reconstruction_exists() {
    let abs = s("/w/foo.txt:abc:5");
    let r = resolve_with_probes(&abs, &FsProbe::Missing, &FsProbe::Missing, &FsProbe::Missing);
    assert_eq!(
        r,
        Err(ResolveError::InvalidLine {
            text: s("abc"),
            cause: NumError::NotNumeric,
            argument: s("/w/foo.txt:abc:5"),
        })
    );
}

#[test]
fn existing_reconstruction_beats_invalid_line() {
    let abs = s("/w/foo.txt:abc:5");
    let r = resolve_with_probes(
        &abs,
        &FsProbe::Missing,
        &FsProbe::Missing,
        &FsProbe::FoundFile(s("/w/foo.txt:abc")),
    );
    assert_eq!(
        r,
        Ok(PathObject::File(
            s("/w/foo.txt:abc"),
            Some(LineCol { line: 5, column: 1 })
        ))
    );
}

#[test]
fn invalid_column_is_terminal() {
    let abs = s("/w/foo.txt:10:xyz");
    let r = resolve_with_probes(&abs, &FsProbe::Missing, &FsProbe::Missing, &FsProbe::Missing);
    assert_eq!(
        r,
        Err(ResolveError::InvalidColumn {
            text: s("xyz"),
            cause: NumError::NotNumeric,
            argument: s("/w/foo.txt:10:xyz"),
        })
    );
}

#[test]
fn invalid_line_and_column_reported_together() {
    let abs = s("/w/foo.txt:aa:bb");
    let r = resolve_with_probes(&abs, &FsProbe::Missing, &FsProbe::Missing, &FsProbe::Missing);
    assert_eq!(
        r,
        Err(ResolveError::InvalidLineAndColumn {
            line_text: s("aa"),
            line_cause: NumError::NotNumeric,
            column_text: s("bb"),
            column_cause: NumError::NotNumeric,
            argument: s("/w/foo.txt:aa:bb"),
        })
    );
}

#[test]
fn probe_failure_other_than_absence_is_reported() {
    let abs = s("/w/foo.txt:1:2");
    let r = resolve_with_probes(
        &abs,
        &FsProbe::Missing,
        &FsProbe::Failed(s("permission denied")),
        &FsProbe::Missing,
    );
    assert_eq!(
        r,
        Err(ResolveError::OtherIoFailure {
            path: s("/w/foo.txt"),
            detail: s("permission denied"),
            argument: s("/w/foo.txt:1:2"),
        })
    );
}

#[test]
fn line_number_too_large_is_reported() {
    let abs = s("/w/foo.txt:99999999999999999999999999:5");
    let r = resolve_with_probes(&abs, &FsProbe::Missing, &FsProbe::Missing, &FsProbe::Missing);
    assert_eq!(
        r,
        Err(ResolveError::InvalidLine {
            text: s("99999999999999999999999999"),
            cause: NumError::TooLarge,
            argument: s("/w/foo.txt:99999999999999999999999999:5"),
        })
    );
}

#[test]
fn no_colon_and_nothing_on_disk_is_no_match() {
    let abs = s("/w/plain");
    let r = resolve_with_probes(&abs, &FsProbe::Missing, &FsProbe::Missing, &FsProbe::Missing);
    assert_eq!(
        r,
        Err(ResolveError::NoMatch {
            argument: s("/w/plain"),
        })
    );
}

#[test]
fn non_regular_verbatim_entry_falls_through_to_the_grammar() {
    // The argument canonicalizes to something that is neither a file
    // nor a directory; with no colon cut, nothing matches.
    let abs = s("/w/sock");
    let r = resolve_with_probes(
        &abs,
        &FsProbe::FoundOther(s("/w/sock")),
        &FsProbe::Missing,
        &FsProbe::Missing,
    );
    assert_eq!(r, Err(ResolveError::NoMatch { argument: s("/w/sock") }));
}

#[test]
fn parse_number_accepts_plain_decimals() {
    assert_eq!(parse_number("10"), Ok(10));
    assert_eq!(parse_number("0"), Ok(0));
    assert_eq!(parse_number("007"), Ok(7));
}

#[test]
fn parse_number_rejects_non_digits_and_empty() {
    assert_eq!(parse_number(""), Err(NumError::NotNumeric));
    assert_eq!(parse_number("abc"), Err(NumError::NotNumeric));
    assert_eq!(parse_number("1x"), Err(NumError::NotNumeric));
    assert_eq!(parse_number("-1"), Err(NumError::NotNumeric));
    assert_eq!(parse_number(" 1"), Err(NumError::NotNumeric));
}

#[test]
fn parse_number_rejects_overflow() {
    assert_eq!(
        parse_number("99999999999999999999999999"),
        Err(NumError::TooLarge)
    );
}

#[test]
fn split_tail_cuts_at_last_colon() {
    assert_eq!(split_tail("a:b"), Some((s("a"), s("b"))));
    assert_eq!(split_tail("a:b:c"), Some((s("a:b"), s("c"))));
    assert_eq!(split_tail("foo.txt:10"), Some((s("foo.txt"), s("10"))));
}

#[test]
fn split_tail_needs_both_sides() {
    assert_eq!(split_tail("plain"), None);
    assert_eq!(split_tail(":b"), None);
    assert_eq!(split_tail("a:"), None);
    assert_eq!(split_tail(":"), None);
    assert_eq!(split_tail(""), None);
}

#[test]
fn normalize_joins_relative_arguments() {
    assert_eq!(normalize_argument(&s("/w"), &s("x.txt")), s("/w/x.txt"));
    assert_eq!(normalize_argument(&s("/w/"), &s("x.txt")), s("/w/x.txt"));
    assert_eq!(normalize_argument(&s(""), &s("x.txt")), s("x.txt"));
    assert_eq!(normalize_argument(&s("/w"), &s("/abs")), s("/abs"));
}

#[test]
fn empty_argument_rejected_before_any_probe() {
    let parser = PathObjectParser::new(s("/w"));
    assert_eq!(parser.parse_ref(&s("")), Err(ResolveError::EmptyArgument));
}

#[test]
fn root_directory_resolves_on_the_real_filesystem() {
    let r = PathObjectParser::parse_path(&s("/"));
    assert_eq!(r, Ok(PathObject::Directory(s("/"))));
}

#[test]
fn relative_argument_joins_the_working_directory() {
    let parser = PathObjectParser::new(s("/"));
    let r = parser.parse_ref(&s("."));
    assert_eq!(r, Ok(PathObject::Directory(s("/"))));
}

#[test]
fn missing_path_is_no_match_on_the_real_filesystem() {
    let parser = PathObjectParser::new(s("/"));
    let r = parser.parse_ref(&s("surely_absent_zq9/x.rs:5:5"));
    assert_eq!(
        r,
        Err(ResolveError::NoMatch {
            argument: s("/surely_absent_zq9/x.rs:5:5"),
        })
    );
}
