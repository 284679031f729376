//! Which files are processed: path filters, the directories that are never
//! entered, what to do with one file, and the count of outcomes.

use crate::cli_types::Args;
use crate::encoding::{file_extension, path_extension, Encoding};
use crate::encodings::Encodings;
use crate::error::AstgenError;
use vstd::prelude::*;
use vstd::string::*;
use vstd::utf8::*;

verus! {

/// The byte `*`, the one wildcard of a path pattern.
pub const STAR: u8 = 42;

/// The byte `/`, which parts the segments of a path.
pub const SLASH: u8 = 47;

/// `part` stands in `text` at offset `at`.
pub open spec fn occurs_at(text: Seq<u8>, part: Seq<u8>, at: int) -> bool {
    &&& 0 <= at
    &&& at + part.len() <= text.len()
    &&& text.subrange(at, at + part.len()) == part
}

/// `part` stands somewhere in `text`.
pub open spec fn contains_text(text: Seq<u8>, part: Seq<u8>) -> bool {
    exists|at: int| occurs_at(text, part, at)
}

/// `text` begins with `part`.
pub open spec fn starts_with(text: Seq<u8>, part: Seq<u8>) -> bool {
    occurs_at(text, part, 0)
}

/// `text` ends with `part`.
pub open spec fn ends_with(text: Seq<u8>, part: Seq<u8>) -> bool {
    occurs_at(text, part, text.len() - part.len())
}

/// The pattern holds exactly one `*`, at offset `at`.
pub open spec fn only_star_at(pattern: Seq<u8>, at: int) -> bool {
    &&& 0 <= at < pattern.len()
    &&& pattern[at] == STAR
    &&& forall|j: int| 0 <= j < pattern.len() && j != at ==> pattern[j] != STAR
}

/// The simple path matcher, on the UTF-8 bytes of pattern and path. A
/// pattern with exactly one `*` matches a path that begins with what stands
/// before the `*` and ends with what stands behind it. Every other pattern,
/// one with several `*` too, matches a path that contains it literally.
pub open spec fn glob_matches(pattern: Seq<u8>, path: Seq<u8>) -> bool {
    if exists|at: int| only_star_at(pattern, at) {
        let at = choose|at: int| only_star_at(pattern, at);
        starts_with(path, pattern.subrange(0, at)) && ends_with(
            path,
            pattern.subrange(at + 1, pattern.len() as int),
        )
    } else {
        contains_text(path, pattern)
    }
}

/// Some pattern of the list matches the path.
pub open spec fn matches_any(patterns: Seq<String>, path: Seq<u8>) -> bool {
    exists|i: int|
        0 <= i < patterns.len() && glob_matches(encode_utf8((#[trigger] patterns[i])@), path)
}

/// A file is kept when no exclude pattern matches it and, if there are
/// include patterns, at least one of them does.
pub open spec fn passes_filters(file_path: Seq<char>, args: Args) -> bool {
    &&& !matches_any(args.exclude_patterns@, encode_utf8(file_path))
    &&& (args.include_patterns@.len() == 0 || matches_any(
        args.include_patterns@,
        encode_utf8(file_path),
    ))
}

/// `name` is a whole segment of `path`, starting at offset `at`: it is
/// bounded on both sides by a `/` or by an end of the path.
pub open spec fn is_segment(path: Seq<u8>, name: Seq<u8>, at: int) -> bool {
    &&& occurs_at(path, name, at)
    &&& (at == 0 || path[at - 1] == SLASH)
    &&& (at + name.len() == path.len() || path[at + name.len()] == SLASH)
}

/// `name` is one of the segments of `path`.
pub open spec fn has_segment(path: Seq<u8>, name: Seq<u8>) -> bool {
    exists|at: int| is_segment(path, name, at)
}

/// A directory is entered unless one of its segments is the name of a
/// build output, dependency, version control or virtual environment
/// directory. Names are compared whole and with case.
pub open spec fn walkable(dir: Seq<char>) -> bool {
    &&& !has_segment(encode_utf8(dir), encode_utf8("target"@))
    &&& !has_segment(encode_utf8(dir), encode_utf8("node_modules"@))
    &&& !has_segment(encode_utf8(dir), encode_utf8(".git"@))
    &&& !has_segment(encode_utf8(dir), encode_utf8(".venv"@))
}

/// Whether the bytes `from..to` of `part` stand in `text` at offset `at`.
fn region_matches(text: &[u8], at: usize, part: &[u8], from: usize, to: usize) -> (same: bool)
    requires
        from <= to <= part@.len(),
        at + (to - from) <= text@.len(),
    ensures
        same == occurs_at(text@, part@.subrange(from as int, to as int), at as int),
{
    let ghost piece = part@.subrange(from as int, to as int);
    let text_len = text.len();
    let mut j: usize = 0;
    while j < to - from
        invariant
            from <= to <= part@.len(),
            at + (to - from) <= text@.len(),
            text_len == text@.len(),
            j <= to - from,
            piece == part@.subrange(from as int, to as int),
            forall|k: int| 0 <= k < j ==> text@[at + k] == piece[k],
        decreases to - from - j,
    {
        if text[at + j] != part[from + j] {
            assert(text@.subrange(at as int, at + piece.len())[j as int] != piece[j as int]);
            return false;
        }
        j += 1;
    }
    assert(text@.subrange(at as int, at + piece.len()) =~= piece);
    true
}

/// Whether `part` stands somewhere in `text`.
fn contains_bytes(text: &[u8], part: &[u8]) -> (found: bool)
    ensures
        found == contains_text(text@, part@),
{
    if part.len() > text.len() {
        return false;
    }
    let last = text.len() - part.len();
    let mut at: usize = 0;
    assert(part@.subrange(0, part@.len() as int) =~= part@);
    loop
        invariant
            last == text@.len() - part@.len(),
            at <= last,
            part@.subrange(0, part@.len() as int) == part@,
            forall|k: int| 0 <= k < at ==> !occurs_at(text@, part@, k),
        decreases last - at,
    {
        if region_matches(text, at, part, 0, part.len()) {
            return true;
        }
        if at == last {
            return false;
        }
        at += 1;
    }
}

/// Whether `path` matches `pattern` under the simple path matcher.
pub fn glob_match(pattern: &str, path: &str) -> (matched: bool)
    ensures
        matched == glob_matches(encode_utf8(pattern@), encode_utf8(path@)),
{
    let p = pattern.as_bytes();
    let t = path.as_bytes();
    let mut stars: u8 = 0;
    let mut first: usize = 0;
    let mut i: usize = 0;
    while i < p.len()
        invariant
            i <= p@.len(),
            stars <= 2,
            stars == 0 ==> forall|j: int| 0 <= j < i ==> p@[j] != STAR,
            stars == 1 ==> first < i && p@[first as int] == STAR && forall|j: int|
                0 <= j < i && j != first ==> p@[j] != STAR,
            stars == 2 ==> exists|a: int, b: int|
                0 <= a < b < i && p@[a] == STAR && p@[b] == STAR,
        decreases p@.len() - i,
    {
        if p[i] == STAR {
            if stars == 0 {
                first = i;
                stars = 1;
            } else if stars == 1 {
                assert(p@[first as int] == STAR && p@[i as int] == STAR);
                stars = 2;
            }
        }
        i += 1;
    }
    if stars == 1 {
        assert(only_star_at(p@, first as int));
        assert forall|at: int| only_star_at(p@, at) implies at == first by {}
        let tail = p.len() - first - 1;
        if first > t.len() || tail > t.len() {
            return false;
        }
        region_matches(t, 0, p, 0, first) && region_matches(t, t.len() - tail, p, first + 1, p.len())
    } else {
        assert forall|at: int| !only_star_at(p@, at) by {
            if stars == 2 {
                let (a, b) = choose|a: int, b: int|
                    0 <= a < b < p@.len() && p@[a] == STAR && p@[b] == STAR;
                assert(a != at || b != at);
            }
        }
        contains_bytes(t, p)
    }
}

fn any_pattern_matches(patterns: &Vec<String>, path: &str) -> (found: bool)
    ensures
        found == matches_any(patterns@, encode_utf8(path@)),
{
    let mut i: usize = 0;
    while i < patterns.len()
        invariant
            i <= patterns.len(),
            forall|j: int|
                0 <= j < i ==> !glob_matches(
                    encode_utf8((#[trigger] patterns@[j])@),
                    encode_utf8(path@),
                ),
        decreases patterns.len() - i,
    {
        if glob_match(patterns[i].as_str(), path) {
            return true;
        }
        i += 1;
    }
    false
}

/// Whether the path filters of the options keep `file_path`. Exclude
/// patterns are applied first; include patterns only if there are any.
pub fn should_process_file(file_path: &str, args: &Args) -> (keep: bool)
    ensures
        keep == passes_filters(file_path@, *args),
{
    if any_pattern_matches(&args.exclude_patterns, file_path) {
        return false;
    }
    if args.include_patterns.len() > 0 {
        return any_pattern_matches(&args.include_patterns, file_path);
    }
    true
}

/// Whether `name` is one of the segments of `path`.
fn segment_in(path: &[u8], name: &[u8]) -> (found: bool)
    ensures
        found == has_segment(path@, name@),
{
    if name.len() > path.len() {
        return false;
    }
    let last = path.len() - name.len();
    let mut at: usize = 0;
    assert(name@.subrange(0, name@.len() as int) =~= name@);
    loop
        invariant
            last == path@.len() - name@.len(),
            at <= last,
            name@.subrange(0, name@.len() as int) == name@,
            forall|k: int| 0 <= k < at ==> !is_segment(path@, name@, k),
        decreases last - at,
    {
        let opens = at == 0 || path[at - 1] == SLASH;
        let closes = at == last || path[at + name.len()] == SLASH;
        if opens && closes && region_matches(path, at, name, 0, name.len()) {
            assert(is_segment(path@, name@, at as int));
            return true;
        }
        if at == last {
            return false;
        }
        at += 1;
    }
}

/// Whether a directory is entered during a walk.
pub fn should_walk_dir(dir: &str) -> (enter: bool)
    ensures
        enter == walkable(dir@),
{
    let path = dir.as_bytes();
    !segment_in(path, "target".as_bytes()) && !segment_in(path, "node_modules".as_bytes())
        && !segment_in(path, ".git".as_bytes()) && !segment_in(path, ".venv".as_bytes())
}

/// Everything below a directory that is not entered is not entered either,
/// however deep: a segment of a directory is a segment of each path under it.
pub proof fn lemma_segment_stays(dir: Seq<u8>, rest: Seq<u8>, name: Seq<u8>)
    requires
        has_segment(dir, name),
    ensures
        has_segment(dir + seq![SLASH] + rest, name),
{
    let at = choose|at: int| is_segment(dir, name, at);
    let longer = dir + seq![SLASH] + rest;
    assert(longer.subrange(at, at + name.len()) =~= dir.subrange(at, at + name.len()));
    assert(is_segment(longer, name, at));
}

/// A directory below one that is not entered is not entered.
pub proof fn lemma_unwalkable_below(dir: Seq<char>, below: Seq<char>, rest: Seq<u8>)
    requires
        !walkable(dir),
        encode_utf8(below) == encode_utf8(dir) + seq![SLASH] + rest,
    ensures
        !walkable(below),
{
    let d = encode_utf8(dir);
    if has_segment(d, encode_utf8("target"@)) {
        lemma_segment_stays(d, rest, encode_utf8("target"@));
    } else if has_segment(d, encode_utf8("node_modules"@)) {
        lemma_segment_stays(d, rest, encode_utf8("node_modules"@));
    } else if has_segment(d, encode_utf8(".git"@)) {
        lemma_segment_stays(d, rest, encode_utf8(".git"@));
    } else {
        lemma_segment_stays(d, rest, encode_utf8(".venv"@));
    }
}

/// An outcome counts as a success when the file was processed.
pub open spec fn is_success(outcome: Result<bool, AstgenError>) -> bool {
    outcome matches Ok(done) && done
}

/// How many of the outcomes are successes.
pub open spec fn successes(outcomes: Seq<Result<bool, AstgenError>>) -> nat
    decreases outcomes.len(),
{
    if outcomes.len() == 0 {
        0
    } else {
        successes(outcomes.drop_last()) + if is_success(outcomes.last()) {
            1nat
        } else {
            0nat
        }
    }
}

/// Taking one outcome out lowers the count by what that outcome counts.
pub proof fn lemma_successes_remove(outcomes: Seq<Result<bool, AstgenError>>, i: int)
    requires
        0 <= i < outcomes.len(),
    ensures
        successes(outcomes) == successes(outcomes.remove(i)) + if is_success(outcomes[i]) {
            1nat
        } else {
            0nat
        },
    decreases outcomes.len(),
{
    if i == outcomes.len() - 1 {
        assert(outcomes.remove(i) =~= outcomes.drop_last());
    } else {
        lemma_successes_remove(outcomes.drop_last(), i);
        assert(outcomes.remove(i).drop_last() =~= outcomes.drop_last().remove(i));
        assert(outcomes.remove(i).last() == outcomes.last());
    }
}

/// The count does not depend on the order in which the files complete: two
/// lists that hold the same outcomes, each as often as the other, have the
/// same number of successes.
pub proof fn lemma_successes_any_order(
    first: Seq<Result<bool, AstgenError>>,
    second: Seq<Result<bool, AstgenError>>,
)
    requires
        first.to_multiset() == second.to_multiset(),
    ensures
        first.len() == second.len(),
        successes(first) == successes(second),
    decreases first.len(),
{
    first.to_multiset_ensures();
    second.to_multiset_ensures();
    if first.len() > 0 {
        let x = first.last();
        assert(first.contains(x));
        assert(second.to_multiset().count(x) > 0);
        assert(second.contains(x));
        let i = choose|i: int| 0 <= i < second.len() && second[i] == x;
        let rest = first.remove(first.len() - 1);
        assert(rest =~= first.drop_last());
        assert(rest.to_multiset() =~= second.remove(i).to_multiset());
        lemma_successes_any_order(rest, second.remove(i));
        lemma_successes_remove(second, i);
    }
}

/// One failure among otherwise successful files gives one error, wherever in
/// the list the failure stands.
pub proof fn lemma_one_failure(outcomes: Seq<Result<bool, AstgenError>>, failed: int)
    requires
        0 <= failed < outcomes.len(),
        !is_success(outcomes[failed]),
        forall|j: int| 0 <= j < outcomes.len() && j != failed ==> is_success(#[trigger] outcomes[j]),
    ensures
        successes(outcomes) == outcomes.len() - 1,
    decreases outcomes.len(),
{
    lemma_successes_remove(outcomes, failed);
    lemma_all_successes(outcomes.remove(failed));
}

/// A list of successes only has as many successes as entries.
pub proof fn lemma_all_successes(outcomes: Seq<Result<bool, AstgenError>>)
    requires
        forall|j: int| 0 <= j < outcomes.len() ==> is_success(#[trigger] outcomes[j]),
    ensures
        successes(outcomes) == outcomes.len(),
    decreases outcomes.len(),
{
    if outcomes.len() > 0 {
        lemma_all_successes(outcomes.drop_last());
    }
}

/// Folds the outcomes of a run into the number of files processed and the
/// number of files that were not.
pub fn tally(outcomes: &Vec<Result<bool, AstgenError>>) -> (counts: (usize, usize))
    ensures
        counts.0 == successes(outcomes@),
        counts.0 + counts.1 == outcomes@.len(),
{
    let mut done: usize = 0;
    let mut i: usize = 0;
    while i < outcomes.len()
        invariant
            i <= outcomes.len(),
            done == successes(outcomes@.subrange(0, i as int)),
            done <= i,
        decreases outcomes.len() - i,
    {
        let ghost upto = outcomes@.subrange(0, i + 1);
        assert(upto.drop_last() =~= outcomes@.subrange(0, i as int));
        assert(upto.last() == outcomes@[i as int]);
        let hit = match &outcomes[i] {
            Ok(done_flag) => *done_flag,
            Err(_) => false,
        };
        if hit {
            done += 1;
        }
        i += 1;
    }
    assert(outcomes@.subrange(0, i as int) =~= outcomes@);
    (done, outcomes.len() - done)
}

/// Whether a progress bar is shown for a directory of `file_count` files: on
/// request, or for more than ten files unless the run is quiet.
pub fn show_progress(args: &Args, file_count: usize) -> (show: bool)
    ensures
        show == (args.progress || (!args.quiet && file_count > 10)),
{
    args.progress || (!args.quiet && file_count > 10)
}

/// What is done with one file.
#[derive(Debug)]
pub enum FilePlan<'e, 'a> {
    /// The path filters drop the file; it counts as not processed.
    Filtered,
    /// Dry run: the file is only announced with its language, and counts as
    /// processed.
    Announce(&'e Encoding<'a>),
    /// The file is read if it has at most this many bytes, then parsed.
    Parse(&'e Encoding<'a>, usize),
    /// No binding applies; the file counts as not processed.
    Unsupported,
}

/// The number of bytes in a megabyte, as the size limit counts them.
pub const BYTES_PER_MB: usize = 1_000_000;

/// Whether a file without binding is reported as an error: only in a
/// verbose run, and only if the path has an extension.
pub open spec fn reports_unsupported(file_path: Seq<char>, args: Args) -> bool {
    &&& args.verbose
    &&& !args.quiet
    &&& path_extension(file_path) is Some
}

/// Decides what is done with one file, before anything is read. The
/// filters come first, then the registry; a dry run stops short of reading.
pub fn plan_single_file<'e, 'a>(file_path: &str, encodings: &'e Encodings<'a>, args: &Args) -> (plan:
    Result<FilePlan<'e, 'a>, AstgenError>)
    requires
        args.max_file_size * BYTES_PER_MB <= usize::MAX,
    ensures
        match plan {
            Ok(FilePlan::Filtered) => !passes_filters(file_path@, *args),
            Ok(FilePlan::Announce(binding)) => {
                &&& passes_filters(file_path@, *args)
                &&& args.dry_run
                &&& encodings.first_match(file_path@) matches Some(i) && *binding
                    == encodings.bindings()[i]
            },
            Ok(FilePlan::Parse(binding, limit)) => {
                &&& passes_filters(file_path@, *args)
                &&& !args.dry_run
                &&& limit == args.max_file_size * BYTES_PER_MB
                &&& encodings.first_match(file_path@) matches Some(i) && *binding
                    == encodings.bindings()[i]
            },
            Ok(FilePlan::Unsupported) => {
                &&& passes_filters(file_path@, *args)
                &&& encodings.first_match(file_path@) is None
                &&& !reports_unsupported(file_path@, *args)
            },
            Err(e) => {
                &&& passes_filters(file_path@, *args)
                &&& encodings.first_match(file_path@) is None
                &&& reports_unsupported(file_path@, *args)
                &&& e matches AstgenError::UnsupportedFileType(p) && p@ == file_path@
            },
        },
{
    if !should_process_file(file_path, args) {
        return Ok(FilePlan::Filtered);
    }
    match encodings.match_file(file_path) {
        Some(binding) => {
            if args.dry_run {
                Ok(FilePlan::Announce(binding))
            } else {
                Ok(FilePlan::Parse(binding, args.max_file_size * BYTES_PER_MB))
            }
        },
        None => {
            if args.verbose && !args.quiet {
                if file_extension(file_path).is_some() {
                    return Err(AstgenError::UnsupportedFileType(file_path.to_owned()));
                }
            }
            Ok(FilePlan::Unsupported)
        },
    }
}

/// Whether a planned file counts as processed once its work is done:
/// `parsed` tells, for a file that was to be parsed, whether a document came
/// out and was written.
pub fn plan_outcome(plan: &FilePlan, parsed: bool) -> (done: bool)
    ensures
        done == match plan {
            FilePlan::Filtered => false,
            FilePlan::Announce(_) => true,
            FilePlan::Parse(_, _) => parsed,
            FilePlan::Unsupported => false,
        },
{
    match plan {
        FilePlan::Filtered => false,
        FilePlan::Announce(_) => true,
        FilePlan::Parse(_, _) => parsed,
        FilePlan::Unsupported => false,
    }
}

/// What a directory walk does with one entry.
#[derive(Clone, Copy, Debug, PartialEq, Eq, Structural)]
pub enum EntryAction {
    /// A directory that is entered.
    Descend,
    /// A file that the binding at this index parses.
    Parse(usize),
    /// A directory that is not entered, or a file that no binding supports.
    Skip,
}

/// Decides what a directory walk does with one entry: a directory is entered
/// unless one of its segments is an ignored name; a file is parsed by the
/// first binding that applies to it, and skipped when none does.
pub fn entry_action(path: &str, is_dir: bool, encodings: &Encodings) -> (action: EntryAction)
    ensures
        action == if is_dir {
            if walkable(path@) {
                EntryAction::Descend
            } else {
                EntryAction::Skip
            }
        } else {
            match encodings.first_match(path@) {
                Some(i) => EntryAction::Parse(i as usize),
                None => EntryAction::Skip,
            }
        },
{
    if is_dir {
        if should_walk_dir(path) {
            EntryAction::Descend
        } else {
            EntryAction::Skip
        }
    } else {
        match encodings.match_index(path) {
            Some(i) => EntryAction::Parse(i),
            None => EntryAction::Skip,
        }
    }
}

} // verus!
