//! The text handling of the end-to-end pipeline run: the files a model's
//! answer carries in fenced code blocks, the suggestions of a review, the
//! verdict on QA and DevOps answers, and the prompt text that carries the
//! feedback of failed attempts.

use vstd::prelude::*;
use crate::text::opt_text;
use crate::e2e_tests::answer_text::{lowercase_of, to_lowercase};
use crate::text::{
    lines, lines_of, starts_with, contains, trim, find_first, str_starts_with, str_contains,
    str_eq, trim_str, chars_of, chars_find, join_lines, utf8_len, byte_offsets, texts, join_with,
    join_strings, lemma_find_from_occurs,
};
use crate::text_fmt::{dec, push_dec};

verus! {

/// Whether a line opens or closes a fenced code block.
pub open spec fn is_fence(l: Seq<char>) -> bool {
    starts_with(l, "```"@)
}

/// Whether a line names a source, manifest, document or workflow file.
pub open spec fn names_file(l: Seq<char>) -> bool {
    contains(l, ".rs"@) || contains(l, ".toml"@) || contains(l, ".md"@) || contains(l, ".yml"@)
        || contains(l, ".yaml"@)
}

/// `s` with every occurrence of `p` removed, left to right, as
/// `str::replace(p, "")` removes them.
pub open spec fn remove_all(s: Seq<char>, p: Seq<char>) -> Seq<char>
    decreases s.len(),
{
    if p.len() == 0 {
        s
    } else {
        match find_first(s, p) {
            None => s,
            Some(k) => if 0 <= k && k + p.len() <= s.len() {
                s.take(k) + remove_all(s.skip(k + p.len()), p)
            } else {
                s
            },
        }
    }
}

/// The file a code block opened at line `i` is written to, when `count` files
/// were found before it: a file named on the line before, or on the fence
/// line, or else one inferred from the block's language.
pub open spec fn block_path(ls: Seq<Seq<char>>, i: int, count: nat) -> Seq<char> {
    if i > 0 && names_file(ls[i - 1]) {
        trim(ls[i - 1])
    } else if utf8_len(ls[i]) > 3 && names_file(ls[i]) {
        trim(remove_all(ls[i], "```"@))
    } else {
        let lang = lowercase_of(trim(remove_all(ls[i], "```"@)));
        if lang == "rust"@ || lang == "rs"@ {
            "src/lib_"@ + dec(count) + ".rs"@
        } else if lang == "toml"@ {
            "Cargo.toml"@
        } else if lang == "dockerfile"@ {
            "Dockerfile"@
        } else if lang == "yaml"@ || lang == "yml"@ {
            ".github/workflows/ci.yml"@
        } else {
            "src/generated.rs"@
        }
    }
}

/// The first fence line at or after `j`, or the number of lines.
pub open spec fn next_fence(ls: Seq<Seq<char>>, j: int) -> int
    decreases ls.len() - j,
{
    if j < 0 || j >= ls.len() {
        if j < 0 { 0 } else { j }
    } else if is_fence(ls[j]) {
        j
    } else {
        next_fence(ls, j + 1)
    }
}

proof fn lemma_next_fence_range(ls: Seq<Seq<char>>, j: int)
    requires
        0 <= j,
    ensures
        j <= next_fence(ls, j),
        j <= ls.len() ==> next_fence(ls, j) <= ls.len(),
        next_fence(ls, j) < ls.len() ==> is_fence(ls[next_fence(ls, j)]),
        forall|m: int| j <= m < next_fence(ls, j) ==> !is_fence(#[trigger] ls[m]),
    decreases ls.len() - j,
{
    if j < ls.len() && !is_fence(ls[j]) {
        lemma_next_fence_range(ls, j + 1);
    }
}

/// The files found in the lines from `i` on, after the files `found`: each
/// fenced block with content, under the path `block_path` gives it.
pub open spec fn blocks_from(ls: Seq<Seq<char>>, i: int, found: Seq<(Seq<char>, Seq<char>)>) -> Seq<
    (Seq<char>, Seq<char>),
>
    decreases ls.len() - i,
{
    if i < 0 || i >= ls.len() {
        found
    } else if is_fence(ls[i]) {
        let j = next_fence(ls, i + 1);
        let content = ls.subrange(i + 1, j);
        let next = if content.len() > 0 {
            found.push((block_path(ls, i, found.len()), join_lines(content)))
        } else {
            found
        };
        if i < j + 1 < ls.len() {
            blocks_from(ls, j + 1, next)
        } else {
            next
        }
    } else {
        blocks_from(ls, i + 1, found)
    }
}

/// The files carried by the fenced code blocks of an answer.
pub open spec fn code_blocks(response: Seq<char>) -> Seq<(Seq<char>, Seq<char>)> {
    blocks_from(lines(response), 0, Seq::empty())
}

/// A pair of strings as plain values.
pub open spec fn pair_view(p: (String, String)) -> (Seq<char>, Seq<char>) {
    (p.0@, p.1@)
}

/// Pairs of strings as plain values.
pub open spec fn pairs_view(v: Seq<(String, String)>) -> Seq<(Seq<char>, Seq<char>)> {
    Seq::new(v.len(), |i: int| pair_view(v[i]))
}

/// `str::replace(p, "")`.
fn remove_all_exec(s: &str, p: &str) -> (r: String)
    requires
        p@.len() > 0,
    ensures
        r@ == remove_all(s@, p@),
    decreases s@.len(),
{
    let v = chars_of(s);
    let pv = chars_of(p);
    match chars_find(&v, &pv) {
        None => s.to_owned(),
        Some(k) => {
            proof {
                lemma_find_from_occurs(v@, pv@, 0);
            }
            let n = s.unicode_len();
            let head = s.substring_char(0, k);
            let tail = s.substring_char(k + pv.len(), n);
            assert(tail@ =~= s@.skip(k + p@.len()));
            assert(head@ =~= s@.take(k as int));
            let rest = remove_all_exec(tail, p);
            let mut r = head.to_owned();
            r.append(rest.as_str());
            r
        },
    }
}

/// Whether the line names a file of the kinds a block may carry.
fn names_file_exec(l: &str) -> (r: bool)
    ensures
        r == names_file(l@),
{
    str_contains(l, ".rs") || str_contains(l, ".toml") || str_contains(l, ".md") || str_contains(
        l,
        ".yml",
    ) || str_contains(l, ".yaml")
}

/// The path of the block opened at line `i`.
fn block_path_exec(ls: &Vec<&str>, i: usize, count: usize, Ghost(all): Ghost<Seq<Seq<char>>>) -> (r:
    String)
    requires
        i < ls@.len(),
        ls@.len() == all.len(),
        forall|k: int| 0 <= k < ls@.len() ==> #[trigger] ls@[k]@ == all[k],
    ensures
        r@ == block_path(all, i as int, count as nat),
{
    if i > 0 && names_file_exec(ls[i - 1]) {
        return trim_str(ls[i - 1]).to_owned();
    }
    let line = ls[i];
    let lv = chars_of(line);
    let off = byte_offsets(&lv);
    proof {
        assert(lv@.take(lv@.len() as int) =~= lv@);
        reveal_strlit("```");
    }
    let bare = remove_all_exec(line, "```");
    if off[lv.len()] > 3 && names_file_exec(line) {
        return trim_str(bare.as_str()).to_owned();
    }
    let lang = to_lowercase(trim_str(bare.as_str()));
    let l = lang.as_str();
    if str_eq(l, "rust") || str_eq(l, "rs") {
        let mut r = "src/lib_".to_owned();
        push_dec(&mut r, count as u64);
        r.append(".rs");
        r
    } else if str_eq(l, "toml") {
        "Cargo.toml".to_owned()
    } else if str_eq(l, "dockerfile") {
        "Dockerfile".to_owned()
    } else if str_eq(l, "yaml") || str_eq(l, "yml") {
        ".github/workflows/ci.yml".to_owned()
    } else {
        "src/generated.rs".to_owned()
    }
}

/// Joins lines `from..to` of `ls` with line feeds.
fn join_range(ls: &Vec<&str>, from: usize, to: usize) -> (r: String)
    requires
        from <= to <= ls@.len(),
    ensures
        r@ == join_lines(Seq::new((to - from) as nat, |k: int| ls@[from + k]@)),
{
    let mut r = String::new();
    let mut i: usize = from;
    while i < to
        invariant
            from <= i <= to <= ls@.len(),
            r@ == join_lines(Seq::new((i - from) as nat, |k: int| ls@[from + k]@)),
        decreases to - i,
    {
        let ghost prev = Seq::new((i - from) as nat, |k: int| ls@[from + k]@);
        let ghost next = Seq::new((i + 1 - from) as nat, |k: int| ls@[from + k]@);
        proof {
            reveal_strlit("\n");
        }
        if i > from {
            r.append("\n");
        }
        r.append(ls[i]);
        proof {
            assert(next.drop_last() =~= prev);
            if i == from {
                assert(next =~= seq![ls@[from as int]@]);
            }
        }
        i = i + 1;
    }
    r
}

/// Finds the files that an answer carries in fenced code blocks: each block
/// with content becomes a file, named by the line before the fence, by the
/// fence line itself, or after the block's language.
pub fn extract_code_blocks_from_response(response: &str) -> (r: Vec<(String, String)>)
    ensures
        pairs_view(r@) == code_blocks(response@),
{
    let ls = lines_of(response);
    let ghost all = lines(response@);
    let mut files: Vec<(String, String)> = Vec::new();
    let mut i: usize = 0;
    proof {
        reveal_strlit("```");
        assert(pairs_view(files@) =~= Seq::<(Seq<char>, Seq<char>)>::empty());
    }
    while i < ls.len()
        invariant
            ls@.len() == all.len(),
            forall|k: int| 0 <= k < ls@.len() ==> #[trigger] ls@[k]@ == all[k],
            i <= ls@.len(),
            blocks_from(all, i as int, pairs_view(files@)) == code_blocks(response@),
        decreases ls@.len() - i,
    {
        if str_starts_with(ls[i], "```") {
            let path = block_path_exec(&ls, i, files.len(), Ghost(all));
            let mut j: usize = i + 1;
            while j < ls.len() && !str_starts_with(ls[j], "```")
                invariant
                    ls@.len() == all.len(),
                    forall|k: int| 0 <= k < ls@.len() ==> #[trigger] ls@[k]@ == all[k],
                    i < j <= ls@.len(),
                    next_fence(all, j as int) == next_fence(all, i + 1),
                decreases ls@.len() - j,
            {
                j = j + 1;
            }
            proof {
                lemma_next_fence_range(all, j as int);
            }
            let ghost before = pairs_view(files@);
            if j > i + 1 {
                let content = join_range(&ls, i + 1, j);
                proof {
                    assert(Seq::new((j - (i + 1)) as nat, |k: int| ls@[i + 1 + k]@) =~= all.subrange(
                        i + 1,
                        j as int,
                    ));
                }
                files.push((path, content));
                proof {
                    assert(pairs_view(files@) =~= before.push(
                        (block_path(all, i as int, before.len()), join_lines(all.subrange(i + 1, j as int))),
                    ));
                }
            } else {
                proof {
                    assert(all.subrange(i + 1, j as int).len() == 0);
                }
            }
            if j < ls.len() {
                i = j + 1;
            } else {
                i = j;
            }
        } else {
            i = i + 1;
        }
    }
    proof {
        assert(blocks_from(all, i as int, pairs_view(files@)) == pairs_view(files@));
    }
    files
}

/// Whether a review line is a suggestion: a bullet, or a note of work left.
pub open spec fn is_suggestion(l: Seq<char>) -> bool {
    starts_with(l, "- "@) || starts_with(l, "* "@) || contains(l, "TODO"@) || contains(l, "FIXME"@)
}

/// The suggestions among the lines `ls`, trimmed, in order.
pub open spec fn suggestions_of(ls: Seq<Seq<char>>) -> Seq<Seq<char>>
    decreases ls.len(),
{
    if ls.len() == 0 {
        Seq::empty()
    } else {
        let rest = suggestions_of(ls.drop_last());
        if is_suggestion(ls.last()) {
            rest.push(trim(ls.last()))
        } else {
            rest
        }
    }
}

/// The reason a rejection gives, or the stand-in when it gives none.
pub open spec fn rejection_reason(reason: Option<Seq<char>>) -> Seq<char> {
    match reason {
        Some(r) => r,
        None => "Unknown reason"@,
    }
}

fn reason_text(reason: &Option<String>) -> (r: String)
    ensures
        r@ == rejection_reason(opt_text(*reason)),
{
    match reason {
        Some(r) => r.clone(),
        None => "Unknown reason".to_owned(),
    }
}

/// The suggestions of a review answer: the bullet lines and the lines that
/// note work left, trimmed.
pub fn review_suggestions(response: &str) -> (r: Vec<String>)
    ensures
        texts(r@) == suggestions_of(lines(response@)),
{
    let ls = lines_of(response);
    let ghost all = lines(response@);
    let mut out: Vec<String> = Vec::new();
    let mut i: usize = 0;
    while i < ls.len()
        invariant
            i <= ls@.len(),
            ls@.len() == all.len(),
            forall|k: int| 0 <= k < ls@.len() ==> #[trigger] ls@[k]@ == all[k],
            texts(out@) == suggestions_of(all.take(i as int)),
        decreases ls.len() - i,
    {
        let l = ls[i];
        proof {
            assert(all.take(i + 1).drop_last() =~= all.take(i as int));
            assert(all.take(i + 1).last() == l@);
        }
        let keep = str_starts_with(l, "- ") || str_starts_with(l, "* ") || str_contains(l, "TODO")
            || str_contains(l, "FIXME");
        if keep {
            let ghost before = texts(out@);
            out.push(trim_str(l).to_owned());
            assert(texts(out@) =~= before.push(trim(l@)));
        }
        i = i + 1;
    }
    assert(all.take(ls@.len() as int) =~= all);
    out
}

/// Reads a code review answer: a rejection (the reason it gives, when the
/// answer is a JSON array with a `Reject` item) yields a single
/// `REJECTION: ` line; otherwise the answer's suggestions.
pub fn parse_code_review_response(response: &str, rejection: &Option<Option<String>>) -> (r: Vec<
    String,
>)
    ensures
        match rejection {
            Some(reason) => texts(r@) == seq!["REJECTION: "@ + rejection_reason(opt_text(*reason))],
            None => texts(r@) == suggestions_of(lines(response@)),
        },
{
    match rejection {
        Some(reason) => {
            let mut m = "REJECTION: ".to_owned();
            let why = reason_text(reason);
            m.append(why.as_str());
            let v = vec![m];
            assert(texts(v@) =~= seq!["REJECTION: "@ + rejection_reason(opt_text(*reason))]);
            v
        },
        None => review_suggestions(response),
    }
}

/// The verdict on an answer that should carry files: the rejection, the
/// complaint that no file came, or the files.
pub open spec fn files_verdict(
    response: Seq<char>,
    rejection: Option<Option<Seq<char>>>,
    rejected: Seq<char>,
    empty: Seq<char>,
) -> Result<Seq<(Seq<char>, Seq<char>)>, Seq<char>> {
    match rejection {
        Some(reason) => Err(rejected + rejection_reason(reason)),
        None => if code_blocks(response).len() == 0 {
            Err(empty)
        } else {
            Ok(code_blocks(response))
        },
    }
}

/// An optional optional string as plain values.
pub open spec fn rejection_view(o: Option<Option<String>>) -> Option<Option<Seq<char>>> {
    match o {
        Some(r) => Some(opt_text(r)),
        None => None,
    }
}

fn files_or_complaint(response: &str, rejection: &Option<Option<String>>, rejected: &str, empty: &str) -> (r: Result<
    Vec<(String, String)>,
    String,
>)
    ensures
        match files_verdict(response@, rejection_view(*rejection), rejected@, empty@) {
            Ok(f) => r matches Ok(v) && pairs_view(v@) == f,
            Err(m) => r matches Err(e) && e@ == m,
        },
{
    match rejection {
        Some(reason) => {
            let mut m = rejected.to_owned();
            let why = reason_text(reason);
            m.append(why.as_str());
            Err(m)
        },
        None => {
            let files = extract_code_blocks_from_response(response);
            if files.len() == 0 {
                Err(empty.to_owned())
            } else {
                Ok(files)
            }
        },
    }
}

/// Reads a QA answer: a rejection is refused with its reason; otherwise the
/// test files of its code blocks, of which there must be at least one.
pub fn parse_qa_response(response: &str, rejection: &Option<Option<String>>) -> (r: Result<
    Vec<(String, String)>,
    String,
>)
    ensures
        match files_verdict(
            response@,
            rejection_view(*rejection),
            "QA Rejected: "@,
            "LLM failed to generate test files - QA prompt needs improvement"@,
        ) {
            Ok(f) => r matches Ok(v) && pairs_view(v@) == f,
            Err(m) => r matches Err(e) && e@ == m,
        },
{
    files_or_complaint(
        response,
        rejection,
        "QA Rejected: ",
        "LLM failed to generate test files - QA prompt needs improvement",
    )
}

/// Reads a DevOps answer: a rejection is refused with its reason; otherwise
/// the configuration files of its code blocks, of which there must be at
/// least one.
pub fn parse_devops_response(response: &str, rejection: &Option<Option<String>>) -> (r: Result<
    Vec<(String, String)>,
    String,
>)
    ensures
        match files_verdict(
            response@,
            rejection_view(*rejection),
            "DevOps Rejected: "@,
            "LLM failed to generate DevOps files - DevOps prompt needs improvement"@,
        ) {
            Ok(f) => r matches Ok(v) && pairs_view(v@) == f,
            Err(m) => r matches Err(e) && e@ == m,
        },
{
    files_or_complaint(
        response,
        rejection,
        "DevOps Rejected: ",
        "LLM failed to generate DevOps files - DevOps prompt needs improvement",
    )
}

/// Whether a Rust project's files include its manifest and a crate root.
pub open spec fn has_essential_files_spec(files: Seq<(Seq<char>, Seq<char>)>) -> bool {
    &&& exists|k: int| 0 <= k < files.len() && #[trigger] files[k].0 == "Cargo.toml"@
    &&& exists|k: int|
        0 <= k < files.len() && (#[trigger] files[k].0 == "src/main.rs"@ || files[k].0
            == "src/lib.rs"@)
}

/// Checks that a Rust project's files include `Cargo.toml` and either
/// `src/main.rs` or `src/lib.rs`.
pub fn has_essential_files(files: &Vec<(String, String)>) -> (r: bool)
    ensures
        r == has_essential_files_spec(pairs_view(files@)),
{
    let ghost fv = pairs_view(files@);
    let mut cargo = false;
    let mut root = false;
    let mut i: usize = 0;
    while i < files.len()
        invariant
            i <= files@.len(),
            fv == pairs_view(files@),
            cargo == exists|k: int| 0 <= k < i && #[trigger] fv[k].0 == "Cargo.toml"@,
            root == exists|k: int|
                0 <= k < i && (#[trigger] fv[k].0 == "src/main.rs"@ || fv[k].0 == "src/lib.rs"@),
        decreases files.len() - i,
    {
        let p = files[i].0.as_str();
        assert(fv[i as int].0 == p@);
        if str_eq(p, "Cargo.toml") {
            cargo = true;
        }
        if str_eq(p, "src/main.rs") || str_eq(p, "src/lib.rs") {
            root = true;
        }
        i = i + 1;
    }
    cargo && root
}

/// The lines that number the feedback of failed attempts from 1.
pub open spec fn numbered_feedback(history: Seq<Seq<char>>) -> Seq<Seq<char>> {
    Seq::new(history.len(), |i: int| "Attempt "@ + dec((i + 1) as nat) + ": "@ + history[i])
}

/// The prompt section that carries the feedback of earlier failed attempts;
/// empty when there were none.
pub open spec fn feedback_context_spec(history: Seq<Seq<char>>) -> Seq<char> {
    if history.len() == 0 {
        Seq::empty()
    } else {
        "\n\n🚨 PREVIOUS ATTEMPTS FAILED - LEARN FROM THESE ERRORS:\n"@ + join_with(
            numbered_feedback(history),
            "\n"@,
        ) + "\n\n⚠️ YOU MUST FIX ALL THESE ISSUES AND CREATE WORKING CODE:\n"@
    }
}

/// Builds the prompt section that lists the feedback of earlier attempts,
/// numbered from 1.
pub fn feedback_context(history: &Vec<String>) -> (r: String)
    ensures
        r@ == feedback_context_spec(texts(history@)),
{
    if history.len() == 0 {
        return String::new();
    }
    let mut items: Vec<String> = Vec::new();
    let mut i: usize = 0;
    while i < history.len()
        invariant
            i <= history@.len(),
            history@.len() == history.len(),
            texts(items@) == numbered_feedback(texts(history@)).take(i as int),
        decreases history.len() - i,
    {
        let mut line = "Attempt ".to_owned();
        push_dec(&mut line, (i + 1) as u64);
        line.append(": ");
        line.append(history[i].as_str());
        let ghost before = texts(items@);
        assert(line@ == "Attempt "@ + dec((i + 1) as nat) + ": "@ + texts(history@)[i as int]);
        assert(numbered_feedback(texts(history@))[i as int] == line@);
        let ghost lv = line@;
        items.push(line);
        assert(texts(items@) =~= before.push(lv));
        assert(before.push(lv) =~= numbered_feedback(texts(history@)).take(i + 1));
        i = i + 1;
    }
    assert(numbered_feedback(texts(history@)).take(history@.len() as int) =~= numbered_feedback(
        texts(history@),
    ));
    let joined = join_strings(&items, "\n");
    let mut r = "\n\n🚨 PREVIOUS ATTEMPTS FAILED - LEARN FROM THESE ERRORS:\n".to_owned();
    r.append(joined.as_str());
    r.append("\n\n⚠️ YOU MUST FIX ALL THESE ISSUES AND CREATE WORKING CODE:\n");
    r
}

/// The task description sent for one attempt at a feature: the task, the
/// feedback of earlier attempts, and the demand for working code.
pub open spec fn enhanced_description_spec(title: Seq<char>, description: Seq<char>, feedback: Seq<char>) -> Seq<char> {
    title + ": "@ + description + "\n\n"@ + feedback
        + "🎯 CRITICAL: Generate COMPLETE, WORKING, TESTABLE code that builds and runs successfully.\n🔨 Code MUST pass: build check, test execution, and UI accessibility (if applicable)."@
}

/// Builds the task description sent for one attempt at a feature.
pub fn enhanced_description(title: &str, description: &str, feedback: &str) -> (r: String)
    ensures
        r@ == enhanced_description_spec(title@, description@, feedback@),
{
    let mut r = title.to_owned();
    r.append(": ");
    r.append(description);
    r.append("\n\n");
    r.append(feedback);
    r.append(
        "🎯 CRITICAL: Generate COMPLETE, WORKING, TESTABLE code that builds and runs successfully.\n🔨 Code MUST pass: build check, test execution, and UI accessibility (if applicable).",
    );
    r
}

/// How many attempts a feature gets.
pub const MAX_FEATURE_ATTEMPTS: u32 = 5;

/// What follows a failed attempt at a feature.
#[derive(Debug, Clone, PartialEq, Eq)]
pub enum AttemptOutcome {
    /// Try again as attempt `next_attempt`.
    TryAgain { next_attempt: u32 },
    /// Stop, reporting the message.
    GiveUp { message: String },
}

/// After an attempt whose actions failed and could not be fixed: stop with
/// the last errors once the attempts are used up, else try again.
pub fn after_failed_verification(attempt: u32, max_attempts: u32, error_details: &str) -> (r: AttemptOutcome)
    ensures
        attempt >= max_attempts ==> (r matches AttemptOutcome::GiveUp { message } && message@
            == "Feature development failed after "@ + dec(max_attempts as nat)
            + " attempts. Last errors:\n"@ + error_details@),
        attempt < max_attempts ==> r == (AttemptOutcome::TryAgain { next_attempt: (attempt + 1) as u32 }),
{
    if attempt >= max_attempts {
        let mut m = "Feature development failed after ".to_owned();
        push_dec(&mut m, max_attempts as u64);
        m.append(" attempts. Last errors:\n");
        m.append(error_details);
        AttemptOutcome::GiveUp { message: m }
    } else {
        AttemptOutcome::TryAgain { next_attempt: attempt + 1 }
    }
}

/// After an attempt whose query to the model failed: stop once the attempts
/// are used up, else try again.
pub fn after_failed_query(attempt: u32, max_attempts: u32) -> (r: AttemptOutcome)
    ensures
        attempt >= max_attempts ==> (r matches AttemptOutcome::GiveUp { message } && message@
            == "Feature development failed after "@ + dec(max_attempts as nat)
            + " LLM query attempts"@),
        attempt < max_attempts ==> r == (AttemptOutcome::TryAgain { next_attempt: (attempt + 1) as u32 }),
{
    if attempt >= max_attempts {
        let mut m = "Feature development failed after ".to_owned();
        push_dec(&mut m, max_attempts as u64);
        m.append(" LLM query attempts");
        AttemptOutcome::GiveUp { message: m }
    } else {
        AttemptOutcome::TryAgain { next_attempt: attempt + 1 }
    }
}

/// The feedback an attempt whose query failed leaves for the next ones.
pub fn query_failure_feedback(error: &str) -> (r: String)
    ensures
        r@ == "LLM query failed: "@ + error@,
{
    let mut r = "LLM query failed: ".to_owned();
    r.append(error);
    r
}

/// The first `{` and the last `}` of an answer, when both occur.
pub open spec fn brace_bounds(response: Seq<char>) -> Option<(int, int)> {
    match (find_char_first(response, '{'), find_char_last(response, '}')) {
        (Some(s), Some(e)) => Some((s, e)),
        _ => None,
    }
}

/// The first index that holds `c`.
pub open spec fn find_char_first(s: Seq<char>, c: char) -> Option<int> {
    crate::text::find_char_from(s, c, 0)
}

/// The last index that holds `c`.
pub open spec fn find_char_last(s: Seq<char>, c: char) -> Option<int> {
    crate::e2e_tests::answer_text::rfind_char(s, c)
}

/// The text from the first `{` through the last `}`, when both occur in
/// that order.
pub open spec fn brace_json_spec(response: Seq<char>) -> Option<Seq<char>> {
    match brace_bounds(response) {
        Some((s, e)) => if s < e {
            Some(response.subrange(s, e + 1))
        } else {
            None
        },
        None => None,
    }
}

/// Cuts the object out of an answer that does not decode whole: the text
/// from its first `{` through its last `}`, or `None` where the answer holds
/// no such object.
pub fn brace_json(response: &str) -> (r: Option<String>)
    ensures
        match brace_json_spec(response@) {
            Some(j) => r matches Some(x) && x@ == j,
            None => r is None,
        },
{
    let v = chars_of(response);
    proof {
        crate::e2e_tests::answer_text::lemma_char_ranges(v@, '{', '}');
        assert(v@.len() == v.len());
    }
    match (crate::e2e_tests::answer_text::find_char_in_chars(&v, '{'),
        crate::e2e_tests::answer_text::rfind_char_in_chars(&v, '}')) {
        (Some(s), Some(e)) => if s < e {
            Some(response.substring_char(s, e + 1).to_owned())
        } else {
            None
        },
        _ => None,
    }
}

} // verus!
