//! The decisions inside the execution of an action: the shell commands that
//! archives are made and unpacked with, the name of a backup, the timestamp of
//! a directory entry, the lines a grep search matches, the mode that a
//! permission string gives, the text a replacement leaves, and how a batch
//! ends.

use vstd::prelude::*;
use crate::enums::action::{ActionResult, GrepMatch};
use crate::text::{chars_of, opt_text, lines, lines_of, ends_with, str_ends_with, str_eq, texts, join_with, join_strings};
use crate::text_fmt::{dec_padded, push_dec_padded};

verus! {

/// The file extension of `path` as `Path::extension` finds it: the part of the
/// last component after its last `.`, unless that `.` is the component's
/// first character.
pub uninterp spec fn path_extension_of(path: Seq<char>) -> Option<Seq<char>>;

/// `Path::new(path).extension()`, as text. A `&str` path is valid UTF-8, so
/// the extension always converts; the result is taken to be a function of the
/// path alone.
#[verifier::external_body]
fn path_extension(path: &str) -> (r: Option<String>)
    ensures
        match (r, path_extension_of(path@)) {
            (Some(e), Some(x)) => e@ == x,
            (None, None) => true,
            _ => false,
        },
{
    std::path::Path::new(path).extension().and_then(|e| e.to_str()).map(|e| e.to_string())
}

/// What `Regex::new(pattern)` gives: `None` when the pattern compiles, else
/// the text of the error it reports.
pub uninterp spec fn regex_new_outcome(pattern: Seq<char>) -> Option<Seq<char>>;

/// The byte range of the leftmost-first match of the compiled `pattern` in
/// `line`, as `Regex::find` reports it.
pub uninterp spec fn regex_first_match(pattern: Seq<char>, line: Seq<char>) -> Option<(usize, usize)>;

/// `regex::Regex::new`: whether `pattern` compiles, and the error text when it
/// does not. The outcome is taken to depend on the pattern alone.
#[verifier::external_body]
fn regex_check(pattern: &str) -> (r: Option<String>)
    ensures
        match (r, regex_new_outcome(pattern@)) {
            (Some(e), Some(x)) => e@ == x,
            (None, None) => true,
            _ => false,
        },
{
    match regex::Regex::new(pattern) {
        Ok(_) => None,
        Err(e) => Some(e.to_string()),
    }
}

/// `Regex::find` with the compiled `pattern` on `line`: the byte offsets of the
/// first match, taken to depend on the pattern and the line alone.
#[verifier::external_body]
fn regex_find(pattern: &str, line: &str) -> (r: Option<(usize, usize)>)
    requires
        regex_new_outcome(pattern@) is None,
    ensures
        r == regex_first_match(pattern@, line@),
{
    match regex::Regex::new(pattern) {
        Ok(re) => re.find(line).map(|m| (m.start(), m.end())),
        Err(_) => None,
    }
}

/// The value of an octal digit.
pub open spec fn octal_digit(c: char) -> Option<int> {
    if '0' <= c && c <= '7' {
        Some(c as int - '0' as int)
    } else {
        None
    }
}

/// Reading octal digits from left to right, as `u32::from_str_radix` reads
/// them: the value so far, or the error of the first digit that is not octal
/// or that takes the value past `u32::MAX`.
pub open spec fn octal_scan(d: Seq<char>) -> Result<int, Seq<char>>
    decreases d.len(),
{
    if d.len() == 0 {
        Ok(0)
    } else {
        match octal_scan(d.drop_last()) {
            Err(e) => Err(e),
            Ok(v) => match octal_digit(d.last()) {
                None => Err("invalid digit found in string"@),
                Some(x) => if v * 8 + x > u32::MAX {
                    Err("number too large to fit in target type"@)
                } else {
                    Ok(v * 8 + x)
                },
            },
        }
    }
}

/// What `u32::from_str_radix(text, 8)` gives: the value of the octal digits
/// after an optional `+`, or the text of its error (an empty text, a sign
/// alone or a character that is not an octal digit, a value past `u32::MAX`).
pub open spec fn octal_parse(text: Seq<char>) -> Result<int, Seq<char>> {
    if text.len() == 0 {
        Err("cannot parse integer from empty string"@)
    } else if text.len() == 1 && (text[0] == '+' || text[0] == '-') {
        Err("invalid digit found in string"@)
    } else if text[0] == '+' {
        octal_scan(text.drop_first())
    } else {
        octal_scan(text)
    }
}

/// Reads the octal digits `d[start..]`.
fn scan_octal(d: &Vec<char>, start: usize) -> (r: Result<u32, String>)
    requires
        start <= d@.len(),
    ensures
        match (r, octal_scan(d@.skip(start as int))) {
            (Ok(v), Ok(w)) => v == w,
            (Err(e), Err(x)) => e@ == x,
            _ => false,
        },
{
    let ghost digits = d@.skip(start as int);
    let mut value: u32 = 0;
    let mut i: usize = start;
    assert(digits.take(0) =~= Seq::<char>::empty());
    while i < d.len()
        invariant
            start <= i <= d@.len(),
            digits == d@.skip(start as int),
            octal_scan(digits.take(i - start)) == Ok::<int, Seq<char>>(value as int),
        decreases d.len() - i,
    {
        assert(digits.take(i - start + 1).drop_last() =~= digits.take(i - start));
        assert(digits.take(i - start + 1).last() == d@[i as int]);
        let c = d[i];
        if !('0' <= c && c <= '7') {
            proof {
                lemma_octal_scan_error_stays(digits, i - start + 1);
            }
            return Err("invalid digit found in string".to_owned());
        }
        let x: u32 = (c as u32) - ('0' as u32);
        if value > (u32::MAX - x) / 8 {
            proof {
                assert(value * 8 + x > u32::MAX) by (nonlinear_arith)
                    requires
                        value > (u32::MAX - x) / 8,
                        x <= 7,
                ;
                lemma_octal_scan_error_stays(digits, i - start + 1);
            }
            return Err("number too large to fit in target type".to_owned());
        }
        proof {
            assert(value * 8 + x <= u32::MAX) by (nonlinear_arith)
                requires
                    value <= (u32::MAX - x) / 8,
                    x <= 7,
            ;
        }
        value = value * 8 + x;
        i = i + 1;
    }
    assert(digits.take(i - start) =~= digits);
    Ok(value)
}

/// Once reading octal digits fails, reading more of them fails the same way.
proof fn lemma_octal_scan_error_stays(d: Seq<char>, k: int)
    requires
        0 <= k <= d.len(),
        octal_scan(d.take(k)) is Err,
    ensures
        octal_scan(d) == octal_scan(d.take(k)),
    decreases d.len() - k,
{
    if k < d.len() {
        assert(d.take(k + 1).drop_last() =~= d.take(k));
        lemma_octal_scan_error_stays(d, k + 1);
    } else {
        assert(d.take(k) =~= d);
    }
}

/// The suffix a backup gets when none is given.
pub open spec fn default_backup_suffix() -> Seq<char> {
    ".bak"@
}

/// The path of the backup of `path`.
pub open spec fn backup_path_spec(path: Seq<char>, suffix: Option<Seq<char>>) -> Seq<char> {
    match suffix {
        Some(s) => path + s,
        None => path + default_backup_suffix(),
    }
}

/// Names the backup of `path`: the path followed by the suffix, `.bak` when
/// none is given.
pub fn backup_path(path: &str, backup_suffix: &Option<String>) -> (r: String)
    ensures
        r@ == backup_path_spec(path@, opt_text(*backup_suffix)),
{
    let mut r = path.to_owned();
    match backup_suffix {
        Some(s) => r.append(s.as_str()),
        None => r.append(".bak"),
    }
    r
}

/// `'text'`, in single quotes.
pub open spec fn quoted(t: Seq<char>) -> Seq<char> {
    "'"@ + t + "'"@
}

/// The shell command that unpacks an archive with extension `extension`, or
/// the message with which an unknown format is refused.
pub open spec fn extract_command_spec(
    archive_path: Seq<char>,
    destination: Seq<char>,
    extension: Seq<char>,
) -> Result<Seq<char>, Seq<char>> {
    if extension == "zip"@ {
        Ok("unzip -q "@ + quoted(archive_path) + " -d "@ + quoted(destination))
    } else if extension == "tar"@ {
        Ok("tar -xf "@ + quoted(archive_path) + " -C "@ + quoted(destination))
    } else if extension == "gz"@ && ends_with(archive_path, ".tar.gz"@) {
        Ok("tar -xzf "@ + quoted(archive_path) + " -C "@ + quoted(destination))
    } else {
        Err("Unsupported archive format: "@ + extension)
    }
}

/// The extension that decides how an archive is unpacked: that of its path,
/// or nothing.
pub open spec fn archive_extension(archive_path: Seq<char>) -> Seq<char> {
    match path_extension_of(archive_path) {
        Some(e) => e,
        None => Seq::empty(),
    }
}

fn push_quoted(s: &mut String, t: &str)
    ensures
        final(s)@ == old(s)@ + quoted(t@),
{
    s.append("'");
    s.append(t);
    s.append("'");
}

fn command_with_two_paths(head: &str, first: &str, middle: &str, second: &str) -> (r: String)
    ensures
        r@ == head@ + quoted(first@) + middle@ + quoted(second@),
{
    let mut r = head.to_owned();
    push_quoted(&mut r, first);
    r.append(middle);
    push_quoted(&mut r, second);
    r
}

/// Chooses the command that unpacks `archive_path` into `destination` from
/// the archive's extension: `unzip` for `.zip`, `tar` for `.tar` and
/// `.tar.gz`; any other extension is refused with its name.
pub fn extract_command_for(archive_path: &str, destination: &str, extension: &str) -> (r: Result<
    String,
    String,
>)
    ensures
        match extract_command_spec(archive_path@, destination@, extension@) {
            Ok(c) => r matches Ok(x) && x@ == c,
            Err(m) => r matches Err(x) && x@ == m,
        },
{
    if str_eq(extension, "zip") {
        Ok(command_with_two_paths("unzip -q ", archive_path, " -d ", destination))
    } else if str_eq(extension, "tar") {
        Ok(command_with_two_paths("tar -xf ", archive_path, " -C ", destination))
    } else if str_eq(extension, "gz") && str_ends_with(archive_path, ".tar.gz") {
        Ok(command_with_two_paths("tar -xzf ", archive_path, " -C ", destination))
    } else {
        let mut m = "Unsupported archive format: ".to_owned();
        m.append(extension);
        Err(m)
    }
}

/// The command that unpacks `archive_path` into `destination`, chosen by the
/// extension of the archive's path.
pub fn extract_command(archive_path: &str, destination: &str) -> (r: Result<String, String>)
    ensures
        match extract_command_spec(archive_path@, destination@, archive_extension(archive_path@)) {
            Ok(c) => r matches Ok(x) && x@ == c,
            Err(m) => r matches Err(x) && x@ == m,
        },
{
    let ext = path_extension(archive_path);
    match ext {
        Some(e) => extract_command_for(archive_path, destination, e.as_str()),
        None => {
            proof {
                reveal_strlit("");
                assert(archive_extension(archive_path@) =~= ""@);
            }
            extract_command_for(archive_path, destination, "")
        },
    }
}

/// The shell command that packs `sources` into an archive of `format`, or the
/// message with which an unknown format is refused.
pub open spec fn archive_command_spec(
    sources: Seq<Seq<char>>,
    archive_path: Seq<char>,
    format: Seq<char>,
) -> Result<Seq<char>, Seq<char>> {
    let joined = join_with(sources, " "@);
    if format == "zip"@ {
        Ok("zip -r "@ + quoted(archive_path) + " "@ + joined)
    } else if format == "tar"@ {
        Ok("tar -cf "@ + quoted(archive_path) + " "@ + joined)
    } else if format == "tar.gz"@ {
        Ok("tar -czf "@ + quoted(archive_path) + " "@ + joined)
    } else {
        Err("Unsupported archive format: "@ + format)
    }
}

/// Chooses the command that packs the source paths, joined by spaces, into
/// an archive of the given format (`zip`, `tar` or `tar.gz`); any other format
/// is refused with its name.
pub fn archive_command(source_paths: &Vec<String>, archive_path: &str, format: &str) -> (r: Result<
    String,
    String,
>)
    ensures
        match archive_command_spec(texts(source_paths@), archive_path@, format@) {
            Ok(c) => r matches Ok(x) && x@ == c,
            Err(m) => r matches Err(x) && x@ == m,
        },
{
    let head = if str_eq(format, "zip") {
        "zip -r "
    } else if str_eq(format, "tar") {
        "tar -cf "
    } else if str_eq(format, "tar.gz") {
        "tar -czf "
    } else {
        let mut m = "Unsupported archive format: ".to_owned();
        m.append(format);
        return Err(m);
    };
    let sources = join_strings(source_paths, " ");
    let mut r = head.to_owned();
    push_quoted(&mut r, archive_path);
    r.append(" ");
    r.append(sources.as_str());
    Ok(r)
}

/// The approximate ISO 8601 timestamp of `secs` seconds after the epoch that a
/// directory entry shows: years of 365 days, months of 30.4 days.
pub open spec fn modified_stamp(secs: nat) -> Seq<char> {
    dec_padded(1970 + secs / 31536000, 4) + "-"@ + dec_padded(1 + (secs % 31536000) / 2628000, 2)
        + "-"@ + dec_padded(1 + (secs % 2628000) / 86400, 2) + "T"@ + dec_padded(
        (secs % 86400) / 3600,
        2,
    ) + ":"@ + dec_padded((secs % 3600) / 60, 2) + ":"@ + dec_padded(secs % 60, 2) + "Z"@
}

/// Renders a modification time, in seconds after the epoch, as the
/// approximate timestamp that directory listings carry.
pub fn modified_timestamp(secs: u64) -> (r: String)
    ensures
        r@ == modified_stamp(secs as nat),
{
    let mut r = String::new();
    push_dec_padded(&mut r, 1970 + secs / 31536000, 4);
    r.append("-");
    push_dec_padded(&mut r, 1 + (secs % 31536000) / 2628000, 2);
    r.append("-");
    push_dec_padded(&mut r, 1 + (secs % 2628000) / 86400, 2);
    r.append("T");
    push_dec_padded(&mut r, (secs % 86400) / 3600, 2);
    r.append(":");
    push_dec_padded(&mut r, (secs % 3600) / 60, 2);
    r.append(":");
    push_dec_padded(&mut r, secs % 60, 2);
    r.append("Z");
    r
}

/// The pattern a grep search compiles: case-insensitive unless asked.
pub open spec fn grep_pattern_spec(pattern: Seq<char>, case_sensitive: bool) -> Seq<char> {
    if case_sensitive {
        pattern
    } else {
        "(?i)"@ + pattern
    }
}

/// Builds the pattern a grep search compiles: the pattern itself when the
/// search is case sensitive, else the pattern behind the `(?i)` flag.
pub fn grep_pattern(pattern: &str, case_sensitive: bool) -> (r: String)
    ensures
        r@ == grep_pattern_spec(pattern@, case_sensitive),
{
    if case_sensitive {
        pattern.to_owned()
    } else {
        let mut r = "(?i)".to_owned();
        r.append(pattern);
        r
    }
}

/// The grep matches among the lines `ls`, the first of which is line
/// `first_number`: one for each line the pattern matches, with the line and
/// the byte range of its first match.
pub open spec fn grep_matches_from(
    pattern: Seq<char>,
    file_path: Seq<char>,
    ls: Seq<Seq<char>>,
    first_number: nat,
) -> Seq<(Seq<char>, nat, Seq<char>, usize, usize)>
    decreases ls.len(),
{
    if ls.len() == 0 {
        Seq::empty()
    } else {
        let rest = grep_matches_from(pattern, file_path, ls.drop_last(), first_number);
        let n = first_number + ls.len() - 1;
        match regex_first_match(pattern, ls.last()) {
            Some((s, e)) => rest.push((file_path, n as nat, ls.last(), s, e)),
            None => rest,
        }
    }
}

/// A grep match as plain values.
pub open spec fn grep_match_view(m: GrepMatch) -> (Seq<char>, nat, Seq<char>, usize, usize) {
    (m.file_path@, m.line_number as nat, m.line_content@, m.match_start, m.match_end)
}

/// Searches the text of the file at `file_path` line by line, numbering lines
/// from 1, and keeps each line the pattern matches with the range of its
/// first match.
pub fn grep_content(pattern: &str, file_path: &str, content: &str) -> (r: Vec<GrepMatch>)
    requires
        regex_new_outcome(pattern@) is None,
    ensures
        r@.len() == grep_matches_from(pattern@, file_path@, lines(content@), 1).len(),
        forall|k: int|
            0 <= k < r@.len() ==> grep_match_view(#[trigger] r@[k]) == grep_matches_from(
                pattern@,
                file_path@,
                lines(content@),
                1,
            )[k],
{
    let ls = lines_of(content);
    let ghost all = lines(content@);
    let mut out: Vec<GrepMatch> = Vec::new();
    let mut i: usize = 0;
    while i < ls.len()
        invariant
            i <= ls@.len(),
            ls@.len() == all.len(),
            forall|k: int| 0 <= k < ls@.len() ==> #[trigger] ls@[k]@ == all[k],
            regex_new_outcome(pattern@) is None,
            out@.len() == grep_matches_from(pattern@, file_path@, all.take(i as int), 1).len(),
            forall|k: int|
                0 <= k < out@.len() ==> grep_match_view(#[trigger] out@[k]) == grep_matches_from(
                    pattern@,
                    file_path@,
                    all.take(i as int),
                    1,
                )[k],
        decreases ls.len() - i,
    {
        let line = ls[i];
        let found = regex_find(pattern, line);
        proof {
            let t = all.take(i + 1);
            assert(t.drop_last() =~= all.take(i as int));
            assert(t.last() == line@);
        }
        match found {
            Some((s, e)) => {
                out.push(
                    GrepMatch {
                        file_path: file_path.to_owned(),
                        line_number: i + 1,
                        line_content: line.to_owned(),
                        match_start: s,
                        match_end: e,
                    },
                );
            },
            None => {},
        }
        i = i + 1;
    }
    assert(all.take(ls@.len() as int) =~= all);
    out
}

/// Compiles the search pattern and searches the text of the file at
/// `file_path`: the matches, or the error text with which an invalid pattern
/// is refused.
pub fn grep_file_text(pattern: &str, file_path: &str, content: &str) -> (r: Result<
    Vec<GrepMatch>,
    String,
>)
    ensures
        match regex_new_outcome(pattern@) {
            Some(x) => r matches Err(e) && e@ == x,
            None => r matches Ok(v) && v@.len() == grep_matches_from(
                pattern@,
                file_path@,
                lines(content@),
                1,
            ).len() && forall|k: int|
                0 <= k < v@.len() ==> grep_match_view(#[trigger] v@[k]) == grep_matches_from(
                    pattern@,
                    file_path@,
                    lines(content@),
                    1,
                )[k],
        },
{
    match regex_check(pattern) {
        Some(e) => Err(e),
        None => Ok(grep_content(pattern, file_path, content)),
    }
}

/// The text of the error that an invalid grep pattern is refused with.
pub fn grep_pattern_error(pattern: &str) -> (r: Option<String>)
    ensures
        match (r, regex_new_outcome(pattern@)) {
            (Some(e), Some(x)) => e@ == x,
            (None, None) => true,
            _ => false,
        },
{
    regex_check(pattern)
}

/// Reads a permission string as an octal mode (as `u32::from_str_radix` with
/// radix 8 reads it), or gives the error text that the string is refused
/// with.
pub fn permission_mode(permissions: &str) -> (r: Result<u32, String>)
    ensures
        match (r, octal_parse(permissions@)) {
            (Ok(v), Ok(w)) => v == w,
            (Err(e), Err(x)) => e@ == x,
            _ => false,
        },
{
    let d = chars_of(permissions);
    if d.len() == 0 {
        return Err("cannot parse integer from empty string".to_owned());
    }
    if d.len() == 1 && (d[0] == '+' || d[0] == '-') {
        return Err("invalid digit found in string".to_owned());
    }
    if d[0] == '+' {
        assert(d@.skip(1) =~= d@.drop_first());
        scan_octal(&d, 1)
    } else {
        assert(d@.skip(0) =~= d@);
        scan_octal(&d, 0)
    }
}

/// How a batch of actions ends, given the outcomes of the actions that ran, in
/// order: the first failure, or else the results that carry content.
pub open spec fn batch_outcome<E>(outcomes: Seq<Result<ActionResult, E>>) -> Result<
    Seq<ActionResult>,
    E,
>
    decreases outcomes.len(),
{
    if outcomes.len() == 0 {
        Ok(Seq::empty())
    } else {
        match batch_outcome(outcomes.drop_last()) {
            Err(e) => Err(e),
            Ok(rest) => match outcomes.last() {
                Err(e) => Err(e),
                Ok(r) => if r is NoContent {
                    Ok(rest)
                } else {
                    Ok(rest.push(r))
                },
            },
        }
    }
}

/// Ends a batch of actions from the outcomes of those that ran: the first
/// failure stops it, and otherwise the results without content are dropped.
pub fn finish_batch<E>(outcomes: Vec<Result<ActionResult, E>>) -> (r: Result<Vec<ActionResult>, E>)
    ensures
        match batch_outcome(outcomes@) {
            Ok(v) => r matches Ok(w) && w@ == v,
            Err(e) => r matches Err(x) && x == e,
        },
{
    let mut results: Vec<ActionResult> = Vec::new();
    let mut rest = outcomes;
    let ghost all = outcomes@;
    let ghost n = all.len();
    while rest.len() > 0
        invariant
            rest@.len() <= n,
            n == all.len(),
            all == outcomes@,
            rest@ =~= all.subrange(n - rest@.len(), n as int),
            batch_outcome(all.subrange(0, n - rest@.len())) == Ok::<Seq<ActionResult>, E>(results@),
        decreases rest.len(),
    {
        let ghost k = n - rest@.len();
        let item = rest.remove(0);
        proof {
            assert(item == all[k]);
            assert(all.subrange(0, k + 1).drop_last() =~= all.subrange(0, k));
            assert(all.subrange(0, k + 1).last() == all[k]);
        }
        match item {
            Ok(res) => {
                if res.has_content() {
                    results.push(res);
                }
            },
            Err(e) => {
                proof {
                    assert(batch_outcome(all.subrange(0, k + 1)) == Err::<Seq<ActionResult>, E>(e));
                    lemma_batch_error_sticks(all, k + 1);
                }
                return Err(e);
            },
        }
    }
    proof {
        assert(all.subrange(0, n as int) =~= all);
    }
    Ok(results)
}

/// Once a prefix of the outcomes fails, every longer prefix fails the same way.
proof fn lemma_batch_error_sticks<E>(all: Seq<Result<ActionResult, E>>, k: int)
    requires
        0 <= k <= all.len(),
        batch_outcome(all.subrange(0, k)) is Err,
    ensures
        batch_outcome(all) == batch_outcome(all.subrange(0, k)),
    decreases all.len() - k,
{
    if k < all.len() {
        assert(all.subrange(0, k + 1).drop_last() =~= all.subrange(0, k));
        lemma_batch_error_sticks(all, k + 1);
    } else {
        assert(all.subrange(0, k) =~= all);
    }
}

/// A batch that succeeds hands back only results that carry content, and
/// never more results than actions ran.
pub proof fn lemma_batch_keeps_only_content<E>(outcomes: Seq<Result<ActionResult, E>>)
    ensures
        batch_outcome(outcomes) matches Ok(v) ==> v.len() <= outcomes.len() && forall|k: int|
            0 <= k < v.len() ==> !(#[trigger] v[k] is NoContent),
    decreases outcomes.len(),
{
    if outcomes.len() > 0 {
        lemma_batch_keeps_only_content(outcomes.drop_last());
    }
}

/// Whether every outcome in `outcomes` is a success.
pub open spec fn all_succeeded<E>(outcomes: Seq<Result<ActionResult, E>>) -> bool {
    forall|k: int| 0 <= k < outcomes.len() ==> #[trigger] outcomes[k] is Ok
}

/// The action a batch of `n` actions runs next, given the outcomes of those
/// that ran: the next one in order while all so far succeeded, none after a
/// failure or after the last action.
pub open spec fn batch_next_spec<E>(n: nat, outcomes: Seq<Result<ActionResult, E>>) -> Option<
    nat,
> {
    if outcomes.len() < n && all_succeeded(outcomes) {
        Some(outcomes.len())
    } else {
        None
    }
}

/// Decides which action of a batch of `n` runs next, given the outcomes of
/// the actions that ran (in order): the next one while all so far
/// succeeded; none once one failed or all ran.
pub fn next_in_batch<E>(n: usize, outcomes: &Vec<Result<ActionResult, E>>) -> (r: Option<usize>)
    ensures
        match batch_next_spec(n as nat, outcomes@) {
            Some(i) => r == Some(i as usize),
            None => r is None,
        },
{
    if outcomes.len() >= n {
        return None;
    }
    let mut k: usize = 0;
    while k < outcomes.len()
        invariant
            k <= outcomes@.len(),
            forall|j: int| 0 <= j < k ==> #[trigger] outcomes@[j] is Ok,
        decreases outcomes.len() - k,
    {
        if outcomes[k].is_err() {
            return None;
        }
        k = k + 1;
    }
    Some(outcomes.len())
}

/// The outcomes collected after `steps` rounds of a batch whose action `i`
/// gives `results[i]` when it runs: each round runs the action that
/// `batch_next_spec` names, if any.
pub open spec fn batch_driven<E>(results: Seq<Result<ActionResult, E>>, steps: nat) -> Seq<
    Result<ActionResult, E>,
>
    decreases steps,
{
    if steps == 0 {
        Seq::empty()
    } else {
        let o = batch_driven(results, (steps - 1) as nat);
        match batch_next_spec(results.len(), o) {
            Some(i) => o.push(results[i as int]),
            None => o,
        }
    }
}

/// The shape of a batch after `s` rounds: the actions that ran are the first
/// ones, in order; all but the last succeeded; and where fewer ran than
/// rounds were made, the last one failed.
proof fn lemma_batch_driven_shape<E>(results: Seq<Result<ActionResult, E>>, s: nat)
    requires
        s <= results.len(),
    ensures
        ({
            let o = batch_driven(results, s);
            &&& o.len() <= s
            &&& o == results.take(o.len() as int)
            &&& forall|k: int| 0 <= k < o.len() - 1 ==> #[trigger] o[k] is Ok
            &&& o.len() < s ==> o.len() > 0 && o.last() is Err
        }),
    decreases s,
{
    if s == 0 {
        assert(results.take(0) =~= Seq::<Result<ActionResult, E>>::empty());
    } else {
        lemma_batch_driven_shape(results, (s - 1) as nat);
        let o = batch_driven(results, (s - 1) as nat);
        if o.len() < s - 1 {
            assert(!all_succeeded(o)) by {
                assert(o[o.len() - 1] is Err);
            }
        } else if all_succeeded(o) {
            let o2 = o.push(results[o.len() as int]);
            assert(o2 =~= results.take(o2.len() as int));
            assert forall|k: int| 0 <= k < o2.len() - 1 implies #[trigger] o2[k] is Ok by {
                assert(o2[k] == o[k]);
            }
        } else {
            assert(o.len() > 0) by {
                if o.len() == 0 {
                    assert(all_succeeded(o));
                }
            }
        }
    }
}

/// A batch runs its actions in order and stops at the first failure. Driven
/// by `next_in_batch` for as many rounds as it has actions, where action `i`
/// gives `results[i]`: the actions that ran are the first ones, in order;
/// every one but the last succeeded; fewer than all ran only where the last
/// that ran failed, and then no further action runs; and the batch ends
/// (`finish_batch`) as the outcomes of all actions would end it: with the
/// first failure, or with the results that carry content.
pub proof fn lemma_batch_stops_at_first_failure<E>(results: Seq<Result<ActionResult, E>>)
    ensures
        ({
            let ran = batch_driven(results, results.len());
            &&& ran == results.take(ran.len() as int)
            &&& forall|k: int| 0 <= k < ran.len() - 1 ==> #[trigger] ran[k] is Ok
            &&& ran.len() < results.len() ==> ran.len() > 0 && ran.last() is Err
            &&& batch_next_spec(results.len(), ran) is None
            &&& batch_outcome(ran) == batch_outcome(results)
        }),
{
    let n = results.len();
    lemma_batch_driven_shape(results, n);
    let ran = batch_driven(results, n);
    if ran.len() == n {
        assert(ran =~= results);
    } else {
        let m = ran.len() as int;
        assert(!all_succeeded(ran)) by {
            assert(ran[m - 1] is Err);
        }
        assert(ran =~= results.subrange(0, m));
        assert(results.subrange(0, m).drop_last() =~= results.subrange(0, m - 1));
        assert(batch_outcome(results.subrange(0, m)) is Err);
        lemma_batch_error_sticks(results, m);
    }
}

/// `to` put before every character of `s` and after the last one: what
/// replacing the empty text gives.
pub open spec fn interleaved(s: Seq<char>, to: Seq<char>) -> Seq<char>
    decreases s.len(),
{
    if s.len() == 0 {
        to
    } else {
        to + seq![s[0]] + interleaved(s.drop_first(), to)
    }
}

/// `s` with every occurrence of `from` replaced by `to`, occurrences taken
/// from left to right without overlap (as `str::replace` does); an empty
/// `from` matches before every character and at the end.
pub open spec fn replaced(s: Seq<char>, from: Seq<char>, to: Seq<char>) -> Seq<char>
    decreases s.len(),
{
    if from.len() == 0 {
        interleaved(s, to)
    } else if s.len() == 0 {
        s
    } else if from.len() <= s.len() && s.take(from.len() as int) == from {
        to + replaced(s.skip(from.len() as int), from, to)
    } else {
        seq![s[0]] + replaced(s.drop_first(), from, to)
    }
}

/// The text of a file after a replace action: `content` with every
/// occurrence of `old` replaced by `new`.
pub fn replace_text(content: &str, old: &str, new: &str) -> (r: String)
    ensures
        r@ == replaced(content@, old@, new@),
{
    let v = chars_of(content);
    let p = chars_of(old);
    let n = v.len();
    let m = p.len();
    let mut out = String::new();
    assert(v@.skip(0) =~= v@);
    if m == 0 {
        let mut i: usize = 0;
        assert(out@ + interleaved(v@.skip(0), new@) =~= interleaved(v@, new@));
        while i < n
            invariant
                n == v@.len(),
                v@ == content@,
                m == old@.len(),
                m == 0,
                i <= n,
                out@ + interleaved(v@.skip(i as int), new@) == interleaved(v@, new@),
            decreases n - i,
        {
            assert(v@.skip(i as int).drop_first() =~= v@.skip(i + 1));
            out.append(new);
            out.append(content.substring_char(i, i + 1));
            proof {
                assert(content@.subrange(i as int, i + 1) =~= seq![v@.skip(i as int)[0]]);
                assert(out@ + interleaved(v@.skip(i + 1), new@) =~= interleaved(v@, new@));
            }
            i = i + 1;
        }
        assert(v@.skip(i as int) =~= Seq::<char>::empty());
        out.append(new);
        assert(old@ =~= Seq::<char>::empty());
        return out;
    }
    let mut seg: usize = 0;
    let mut i: usize = 0;
    assert(out@ + v@.subrange(0, 0) + replaced(v@.skip(0), old@, new@) =~= replaced(
        v@,
        old@,
        new@,
    ));
    while i < n
        invariant
            n == v@.len(),
            v@ == content@,
            m == p@.len(),
            p@ == old@,
            m > 0,
            seg <= i <= n,
            out@ + v@.subrange(seg as int, i as int) + replaced(v@.skip(i as int), old@, new@)
                == replaced(v@, old@, new@),
        decreases n - i,
    {
        let hit = m <= n - i && str_eq(content.substring_char(i, i + m), old);
        let ghost rest = v@.skip(i as int);
        if hit {
            assert(rest.take(m as int) =~= v@.subrange(i as int, i + m));
            assert(rest.skip(m as int) =~= v@.skip(i + m));
            out.append(content.substring_char(seg, i));
            out.append(new);
            proof {
                assert(out@ + v@.subrange(i + m, i + m) + replaced(v@.skip(i + m), old@, new@)
                    =~= replaced(v@, old@, new@));
            }
            i = i + m;
            seg = i;
        } else {
            if m <= n - i {
                assert(rest.take(m as int) =~= v@.subrange(i as int, i + m));
            }
            assert(rest.drop_first() =~= v@.skip(i + 1));
            assert(v@.subrange(seg as int, i as int) + seq![rest[0]] =~= v@.subrange(
                seg as int,
                i + 1,
            ));
            proof {
                assert(out@ + v@.subrange(seg as int, i + 1) + replaced(v@.skip(i + 1), old@, new@)
                    =~= replaced(v@, old@, new@));
            }
            i = i + 1;
        }
    }
    assert(v@.skip(i as int) =~= Seq::<char>::empty());
    out.append(content.substring_char(seg, n));
    assert(out@ =~= replaced(v@, old@, new@));
    out
}

} // verus!
