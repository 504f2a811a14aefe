//! The file and command actions that a model's answer asks for, and the
//! results that executing them gives back.

use vstd::prelude::*;
use crate::text::{trim, trim_str};
use crate::text_fmt::{dec, int_dec, push_dec, push_int_dec};

verus! {

/// A file-system or command action that a model's answer asks for.
#[derive(Debug, PartialEq, Eq)]
pub enum Action {
    Write { path: String, content: String },
    Read { path: String },
    Delete { path: String },
    Update { path: String, content: String },
    Replace { path: String, old_content: String, new_content: String },
    Move { old_path: String, new_path: String },
    Copy { old_path: String, new_path: String },
    RunCommand { command: String, env: Option<Vec<(String, String)>> },
    /// Search for text patterns in files using grep-like functionality
    Grep { pattern: String, path: String, recursive: bool, case_sensitive: bool },
    /// Create a directory (and parent directories if needed)
    CreateDirectory { path: String },
    /// Remove a directory (and all contents if recursive)
    RemoveDirectory { path: String, recursive: bool },
    /// List directory contents
    ListDirectory { path: String, recursive: bool },
    /// Create a symbolic link
    CreateSymlink { target: String, link_path: String },
    /// Set file permissions (Unix-style), e.g. "755", "644"
    SetPermissions { path: String, permissions: String },
    /// Append content to a file (instead of overwriting)
    Append { path: String, content: String },
    /// Create a backup of a file, e.g. with suffix ".bak", ".backup"
    Backup { path: String, backup_suffix: Option<String> },
    /// Download a file from a URL
    Download { url: String, destination: String },
    /// Extract/decompress an archive (zip, tar, etc.)
    Extract { archive_path: String, destination: String },
    /// Create an archive from files/directories; format is "zip", "tar" or "tar.gz"
    Archive { source_paths: Vec<String>, archive_path: String, format: String },
    /// Watch a file or directory for changes
    Watch { path: String, duration_seconds: u64 },
}

/// The contents of an optional list of pairs.
pub open spec fn pairs_opt_view(e: Option<Vec<(String, String)>>) -> Option<Seq<(String, String)>> {
    match e {
        Some(v) => Some(v@),
        None => None,
    }
}

/// Whether two actions ask for the same thing: the same variant with the same
/// field values, lists compared by their contents.
pub open spec fn same_action(a: Action, b: Action) -> bool {
    match a {
        Action::RunCommand { command, env } => b matches Action::RunCommand {
            command: c2,
            env: e2,
        } && command == c2 && pairs_opt_view(env) == pairs_opt_view(e2),
        Action::Archive { source_paths, archive_path, format } => b matches Action::Archive {
            source_paths: s2,
            archive_path: p2,
            format: f2,
        } && source_paths@ == s2@ && archive_path == p2 && format == f2,
        _ => a == b,
    }
}

/// Whether two lists of actions ask for the same things, in the same order.
pub open spec fn same_actions(a: Seq<Action>, b: Seq<Action>) -> bool {
    a.len() == b.len() && forall|i: int| 0 <= i < a.len() ==> #[trigger] same_action(a[i], b[i])
}

/// `same_action` is an equivalence: reflexive, symmetric and transitive.
pub proof fn lemma_same_action_equivalence(a: Action, b: Action, c: Action)
    ensures
        same_action(a, a),
        same_action(a, b) ==> same_action(b, a),
        same_action(a, b) && same_action(b, c) ==> same_action(a, c),
{
}

/// A copy of a list of strings.
pub fn clone_strings(v: &Vec<String>) -> (r: Vec<String>)
    ensures
        r@ == v@,
{
    let mut r: Vec<String> = Vec::new();
    let mut i: usize = 0;
    while i < v.len()
        invariant
            i <= v.len(),
            r@ == v@.take(i as int),
        decreases v.len() - i,
    {
        r.push(v[i].clone());
        i = i + 1;
        assert(r@ =~= v@.take(i as int));
    }
    assert(v@.take(v.len() as int) =~= v@);
    r
}

/// A copy of a list of pairs of strings.
pub fn clone_string_pairs(v: &Vec<(String, String)>) -> (r: Vec<(String, String)>)
    ensures
        r@ == v@,
{
    let mut r: Vec<(String, String)> = Vec::new();
    let mut i: usize = 0;
    while i < v.len()
        invariant
            i <= v.len(),
            r@ == v@.take(i as int),
        decreases v.len() - i,
    {
        let (a, b) = &v[i];
        r.push((a.clone(), b.clone()));
        i = i + 1;
        assert(r@ =~= v@.take(i as int));
    }
    assert(v@.take(v.len() as int) =~= v@);
    r
}

impl Clone for Action {
    fn clone(&self) -> (r: Self)
        ensures
            same_action(r, *self),
    {
        match self {
            Action::Write { path, content } => Action::Write {
                path: path.clone(),
                content: content.clone(),
            },
            Action::Read { path } => Action::Read { path: path.clone() },
            Action::Delete { path } => Action::Delete { path: path.clone() },
            Action::Update { path, content } => Action::Update {
                path: path.clone(),
                content: content.clone(),
            },
            Action::Replace { path, old_content, new_content } => Action::Replace {
                path: path.clone(),
                old_content: old_content.clone(),
                new_content: new_content.clone(),
            },
            Action::Move { old_path, new_path } => Action::Move {
                old_path: old_path.clone(),
                new_path: new_path.clone(),
            },
            Action::Copy { old_path, new_path } => Action::Copy {
                old_path: old_path.clone(),
                new_path: new_path.clone(),
            },
            Action::RunCommand { command, env } => Action::RunCommand {
                command: command.clone(),
                env: match env {
                    Some(pairs) => Some(clone_string_pairs(pairs)),
                    None => None,
                },
            },
            Action::Grep { pattern, path, recursive, case_sensitive } => Action::Grep {
                pattern: pattern.clone(),
                path: path.clone(),
                recursive: *recursive,
                case_sensitive: *case_sensitive,
            },
            Action::CreateDirectory { path } => Action::CreateDirectory { path: path.clone() },
            Action::RemoveDirectory { path, recursive } => Action::RemoveDirectory {
                path: path.clone(),
                recursive: *recursive,
            },
            Action::ListDirectory { path, recursive } => Action::ListDirectory {
                path: path.clone(),
                recursive: *recursive,
            },
            Action::CreateSymlink { target, link_path } => Action::CreateSymlink {
                target: target.clone(),
                link_path: link_path.clone(),
            },
            Action::SetPermissions { path, permissions } => Action::SetPermissions {
                path: path.clone(),
                permissions: permissions.clone(),
            },
            Action::Append { path, content } => Action::Append {
                path: path.clone(),
                content: content.clone(),
            },
            Action::Backup { path, backup_suffix } => Action::Backup {
                path: path.clone(),
                backup_suffix: match backup_suffix {
                    Some(s) => Some(s.clone()),
                    None => None,
                },
            },
            Action::Download { url, destination } => Action::Download {
                url: url.clone(),
                destination: destination.clone(),
            },
            Action::Extract { archive_path, destination } => Action::Extract {
                archive_path: archive_path.clone(),
                destination: destination.clone(),
            },
            Action::Archive { source_paths, archive_path, format } => Action::Archive {
                source_paths: clone_strings(source_paths),
                archive_path: archive_path.clone(),
                format: format.clone(),
            },
            Action::Watch { path, duration_seconds } => Action::Watch {
                path: path.clone(),
                duration_seconds: *duration_seconds,
            },
        }
    }
}

/// A copy of a list of actions.
pub fn clone_actions(v: &Vec<Action>) -> (r: Vec<Action>)
    ensures
        same_actions(r@, v@),
{
    let mut r: Vec<Action> = Vec::new();
    let mut i: usize = 0;
    while i < v.len()
        invariant
            i <= v.len(),
            same_actions(r@, v@.take(i as int)),
        decreases v.len() - i,
    {
        r.push(v[i].clone());
        i = i + 1;
    }
    assert(v@.take(v.len() as int) =~= v@);
    r
}

/// What executing an action gave back.
#[derive(Debug, Clone, PartialEq, Eq)]
pub enum ActionResult {
    /// No result (for actions like Write, Delete, etc.)
    NoContent,
    /// Text content result (for Read, Grep results)
    Text(String),
    /// Directory listing result
    DirectoryListing { path: String, entries: Vec<DirectoryEntry> },
    /// Command execution result
    CommandOutput { stdout: String, stderr: String, exit_code: i32 },
    /// File watch result
    WatchResult { path: String, changes_detected: Vec<String> },
    /// Grep search results
    GrepResults { pattern: String, matches: Vec<GrepMatch> },
}

/// One entry of a directory listing.
#[derive(Debug, Clone, PartialEq, Eq)]
pub struct DirectoryEntry {
    pub name: String,
    pub path: String,
    pub is_directory: bool,
    pub size: u64,
    /// ISO 8601 formatted timestamp
    pub modified: Option<String>,
}

/// One line that a grep search matched.
#[derive(Debug, Clone, PartialEq, Eq)]
pub struct GrepMatch {
    pub file_path: String,
    pub line_number: usize,
    pub line_content: String,
    pub match_start: usize,
    pub match_end: usize,
}

/// The line that describes one directory entry.
pub open spec fn directory_entry_text(e: DirectoryEntry) -> Seq<char> {
    "  "@ + (if e.is_directory {
        "[DIR]"@
    } else {
        "[FILE]"@
    }) + " "@ + e.name@ + (if e.is_directory {
        Seq::empty()
    } else {
        " ("@ + dec(e.size as nat) + " bytes)"@
    }) + (match e.modified {
        Some(m) => " - Modified: "@ + m@,
        None => Seq::empty(),
    }) + "\n"@
}

/// The line that describes one detected change.
pub open spec fn change_text(c: String) -> Seq<char> {
    "    - "@ + c@ + "\n"@
}

/// The line that describes one grep match.
pub open spec fn grep_match_text(m: GrepMatch) -> Seq<char> {
    "    "@ + m.file_path@ + ":"@ + dec(m.line_number as nat) + "  "@ + trim(m.line_content@)
        + "\n"@
}

/// The lines of a listing's entries.
pub open spec fn entries_text(s: Seq<DirectoryEntry>) -> Seq<char>
    decreases s.len(),
{
    if s.len() == 0 {
        Seq::empty()
    } else {
        entries_text(s.drop_last()) + directory_entry_text(s.last())
    }
}

/// The lines of the detected changes.
pub open spec fn changes_text(s: Seq<String>) -> Seq<char>
    decreases s.len(),
{
    if s.len() == 0 {
        Seq::empty()
    } else {
        changes_text(s.drop_last()) + change_text(s.last())
    }
}

/// The lines of the grep matches.
pub open spec fn grep_matches_text(s: Seq<GrepMatch>) -> Seq<char>
    decreases s.len(),
{
    if s.len() == 0 {
        Seq::empty()
    } else {
        grep_matches_text(s.drop_last()) + grep_match_text(s.last())
    }
}

/// The text in which a result is shown to a language model.
pub open spec fn llm_text(r: ActionResult) -> Seq<char> {
    match r {
        ActionResult::NoContent => Seq::empty(),
        ActionResult::Text(content) => content@,
        ActionResult::DirectoryListing { path, entries } => "Directory listing for '"@ + path@
            + "':\n"@ + entries_text(entries@),
        ActionResult::CommandOutput { stdout, stderr, exit_code } => "Command completed with exit code: "@
            + int_dec(exit_code as int) + "\n"@ + (if stdout@.len() == 0 {
            Seq::empty()
        } else {
            "STDOUT:\n"@ + stdout@ + "\n"@
        }) + (if stderr@.len() == 0 {
            Seq::empty()
        } else {
            "STDERR:\n"@ + stderr@ + "\n"@
        }),
        ActionResult::WatchResult { path, changes_detected } => "Watch result for '"@ + path@
            + "':\n"@ + (if changes_detected@.len() == 0 {
            "  No changes detected\n"@
        } else {
            "  Changes detected:\n"@ + changes_text(changes_detected@)
        }),
        ActionResult::GrepResults { pattern, matches } => "Grep results for pattern '"@
            + pattern@ + "':\n"@ + (if matches@.len() == 0 {
            "  No matches found\n"@
        } else {
            "  Found "@ + dec(matches@.len()) + " match(es):\n"@ + grep_matches_text(matches@)
        }),
    }
}

fn push_directory_entry(out: &mut String, e: &DirectoryEntry)
    ensures
        final(out)@ == old(out)@ + directory_entry_text(*e),
{
    out.append("  ");
    if e.is_directory {
        out.append("[DIR]");
    } else {
        out.append("[FILE]");
    }
    out.append(" ");
    out.append(e.name.as_str());
    if !e.is_directory {
        out.append(" (");
        push_dec(out, e.size);
        out.append(" bytes)");
    }
    match &e.modified {
        Some(m) => {
            out.append(" - Modified: ");
            out.append(m.as_str());
        },
        None => {},
    }
    out.append("\n");
    assert(final(out)@ =~= old(out)@ + directory_entry_text(*e));
}

fn push_grep_match(out: &mut String, m: &GrepMatch)
    ensures
        final(out)@ == old(out)@ + grep_match_text(*m),
{
    out.append("    ");
    out.append(m.file_path.as_str());
    out.append(":");
    push_dec(out, m.line_number as u64);
    out.append("  ");
    out.append(trim_str(m.line_content.as_str()));
    out.append("\n");
    assert(final(out)@ =~= old(out)@ + grep_match_text(*m));
}

impl ActionResult {
    /// Returns true if this result contains meaningful data for LLM consumption
    pub fn has_content(&self) -> (r: bool)
        ensures
            r == !(*self is NoContent),
    {
        !matches!(self, ActionResult::NoContent)
    }

    /// Converts the result to an LLM-readable string representation
    pub fn to_llm_string(&self) -> (r: String)
        ensures
            r@ == llm_text(*self),
    {
        match self {
            ActionResult::NoContent => String::new(),
            ActionResult::Text(content) => content.clone(),
            ActionResult::DirectoryListing { path, entries } => {
                let mut result = "Directory listing for '".to_owned();
                result.append(path.as_str());
                result.append("':\n");
                let ghost head = result@;
                let mut i: usize = 0;
                while i < entries.len()
                    invariant
                        i <= entries.len(),
                        result@ == head + entries_text(entries@.take(i as int)),
                    decreases entries.len() - i,
                {
                    assert(entries@.take(i + 1).drop_last() =~= entries@.take(i as int));
                    push_directory_entry(&mut result, &entries[i]);
                    i = i + 1;
                    assert(result@ =~= head + entries_text(entries@.take(i as int)));
                }
                assert(entries@.take(entries.len() as int) =~= entries@);
                result
            },
            ActionResult::CommandOutput { stdout, stderr, exit_code } => {
                let mut result = "Command completed with exit code: ".to_owned();
                push_int_dec(&mut result, *exit_code as i64);
                result.append("\n");
                if !stdout.as_str().is_empty() {
                    result.append("STDOUT:\n");
                    result.append(stdout.as_str());
                    result.append("\n");
                }
                if !stderr.as_str().is_empty() {
                    result.append("STDERR:\n");
                    result.append(stderr.as_str());
                    result.append("\n");
                }
                result
            },
            ActionResult::WatchResult { path, changes_detected } => {
                let mut result = "Watch result for '".to_owned();
                result.append(path.as_str());
                result.append("':\n");
                if changes_detected.len() == 0 {
                    result.append("  No changes detected\n");
                } else {
                    result.append("  Changes detected:\n");
                    let ghost head = result@;
                    let mut i: usize = 0;
                    while i < changes_detected.len()
                        invariant
                            i <= changes_detected.len(),
                            result@ == head + changes_text(changes_detected@.take(i as int)),
                        decreases changes_detected.len() - i,
                    {
                        assert(changes_detected@.take(i + 1).drop_last() =~= changes_detected@.take(
                            i as int,
                        ));
                        result.append("    - ");
                        result.append(changes_detected[i].as_str());
                        result.append("\n");
                        i = i + 1;
                        assert(result@ =~= head + changes_text(changes_detected@.take(i as int)));
                    }
                    assert(changes_detected@.take(changes_detected.len() as int)
                        =~= changes_detected@);
                }
                result
            },
            ActionResult::GrepResults { pattern, matches } => {
                let mut result = "Grep results for pattern '".to_owned();
                result.append(pattern.as_str());
                result.append("':\n");
                if matches.len() == 0 {
                    result.append("  No matches found\n");
                } else {
                    result.append("  Found ");
                    push_dec(&mut result, matches.len() as u64);
                    result.append(" match(es):\n");
                    let ghost head = result@;
                    let mut i: usize = 0;
                    while i < matches.len()
                        invariant
                            i <= matches.len(),
                            result@ == head + grep_matches_text(matches@.take(i as int)),
                        decreases matches.len() - i,
                    {
                        assert(matches@.take(i + 1).drop_last() =~= matches@.take(i as int));
                        push_grep_match(&mut result, &matches[i]);
                        i = i + 1;
                        assert(result@ =~= head + grep_matches_text(matches@.take(i as int)));
                    }
                    assert(matches@.take(matches.len() as int) =~= matches@);
                }
                result
            },
        }
    }
}

/// The text of a command's result shows its output, and nothing else: it
/// opens with the line of the exit code and is as long as that line and the
/// sections present; right after it comes a section "STDOUT:" with the
/// command's standard output exactly when that output is not empty, whatever
/// the error output is; and a non-empty error output ends the text as a
/// section "STDERR:".
pub proof fn lemma_command_output_text_shows_its_output(stdout: String, stderr: String, exit_code: i32)
    ensures
        ({
            let text = llm_text(ActionResult::CommandOutput { stdout, stderr, exit_code });
            let head = "Command completed with exit code: "@ + int_dec(exit_code as int) + "\n"@;
            let out = "STDOUT:\n"@ + stdout@ + "\n"@;
            let err = "STDERR:\n"@ + stderr@ + "\n"@;
            &&& text.len() == head.len() + (if stdout@.len() > 0 { out.len() } else { 0 }) + (if stderr@.len()
                > 0 {
                err.len()
            } else {
                0
            })
            &&& text.take(head.len() as int) == head
            &&& stdout@.len() > 0 ==> text.len() >= head.len() + out.len() && text.subrange(
                head.len() as int,
                (head.len() + out.len()) as int,
            ) == out
            &&& stdout@.len() == 0 ==> text.skip(head.len() as int).len() == 0 || text.skip(
                head.len() as int,
            ).take(8) != "STDOUT:\n"@
            &&& stderr@.len() > 0 ==> text.len() >= err.len() && text.skip(text.len() - err.len()) == err
        }),
{
    reveal_strlit("STDOUT:\n");
    reveal_strlit("STDERR:\n");
    let text = llm_text(ActionResult::CommandOutput { stdout, stderr, exit_code });
    let head = "Command completed with exit code: "@ + int_dec(exit_code as int) + "\n"@;
    let out = "STDOUT:\n"@ + stdout@ + "\n"@;
    let err = "STDERR:\n"@ + stderr@ + "\n"@;
    let o = if stdout@.len() == 0 { Seq::<char>::empty() } else { out };
    let e = if stderr@.len() == 0 { Seq::<char>::empty() } else { err };
    assert(text == head + o + e);
    assert(text.take(head.len() as int) =~= head);
    if stdout@.len() > 0 {
        assert(text.subrange(head.len() as int, (head.len() + out.len()) as int) =~= out);
    } else {
        assert(text.skip(head.len() as int) =~= e);
        if e.len() > 0 {
            assert(e.take(8)[3] == 'E');
            assert("STDOUT:\n"@[3] == 'O');
        }
    }
    if stderr@.len() > 0 {
        assert(text.skip(text.len() - err.len()) =~= err);
    }
}

} // verus!
