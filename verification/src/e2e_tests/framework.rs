//! The text handling of the pipeline runs: where a file that a model writes
//! lands, what a failed command reports, which stack a `package.json` names,
//! and which part of an answer holds the JSON.

use vstd::prelude::*;
use crate::text::str_views;
use super::{AppStatus, E2ETestRunner};
use crate::text::{
    starts_with, contains, find_first, str_starts_with, str_contains, chars_of, chars_find,
    join_with, join_strings, texts,
};

verus! {

/// The last component of `path`, as `Path::file_name` finds it: none when the
/// path ends in `..` or is a bare root.
pub uninterp spec fn path_file_name_of(path: Seq<char>) -> Option<Seq<char>>;

/// `Path::new(path).file_name()`, as text. A `&str` path is valid UTF-8, so
/// the name always converts; the result is taken to be a function of the path
/// alone.
#[verifier::external_body]
fn path_file_name(path: &str) -> (r: Option<String>)
    ensures
        match (r, path_file_name_of(path@)) {
            (Some(n), Some(x)) => n@ == x,
            (None, None) => true,
            _ => false,
        },
{
    std::path::Path::new(path).file_name().and_then(|n| n.to_str()).map(|n| n.to_string())
}

/// Whether `path` is absolute, as Unix paths are: it starts at the root.
pub open spec fn is_absolute_path(path: Seq<char>) -> bool {
    path.len() > 0 && path[0] == '/'
}

/// The path a model's write goes to, with the prefixes of another machine's
/// home directory or of the application's own directory dropped.
pub open spec fn clean_write_path_spec(path: Seq<char>) -> Seq<char> {
    if starts_with(path, "/home/"@) || starts_with(path, "/Users/"@) {
        match find_first(path, "src/"@) {
            Some(i) => path.subrange(i, path.len() as int),
            None => match path_file_name_of(path) {
                Some(f) => f,
                None => path,
            },
        }
    } else if contains(path, "-app/"@) {
        match find_first(path, "-app/"@) {
            Some(i) => path.subrange(i + 5, path.len() as int),
            None => path,
        }
    } else {
        path
    }
}

/// Where a file named `path` lands in the application directory `app_dir`.
pub open spec fn resolve_in_app_dir_spec(app_dir: Seq<char>, path: Seq<char>) -> Seq<char> {
    if is_absolute_path(path) {
        path
    } else {
        app_dir + "/"@ + path
    }
}

/// The suffix of `s` from character `i` on.
fn suffix_from(s: &str, i: usize) -> (r: String)
    requires
        i <= s@.len(),
    ensures
        r@ == s@.subrange(i as int, s@.len() as int),
{
    let n = s.unicode_len();
    s.substring_char(i, n).to_owned()
}

/// Cleans the path of a file that a model asks to write: an absolute path
/// under `/home/` or `/Users/` keeps its part from `src/` on (or else its file
/// name), and a path through a `...-app/` directory keeps what follows it.
pub fn clean_write_path(path: &str) -> (r: String)
    ensures
        r@ == clean_write_path_spec(path@),
{
    let v = chars_of(path);
    if str_starts_with(path, "/home/") || str_starts_with(path, "/Users/") {
        let p = chars_of("src/");
        match chars_find(&v, &p) {
            Some(i) => {
                proof {
                    crate::text::lemma_find_from_occurs(v@, p@, 0);
                }
                suffix_from(path, i)
            },
            None => match path_file_name(path) {
                Some(f) => f,
                None => path.to_owned(),
            },
        }
    } else if str_contains(path, "-app/") {
        let p = chars_of("-app/");
        proof {
            reveal_strlit("-app/");
            assert(p@.len() == 5);
        }
        match chars_find(&v, &p) {
            Some(i) => {
                proof {
                    crate::text::lemma_find_from_occurs(v@, p@, 0);
                    assert(v@.len() == v.len());
                }
                suffix_from(path, i + 5)
            },
            None => path.to_owned(),
        }
    } else {
        path.to_owned()
    }
}

/// Resolves `path` against the application directory: an absolute path stays
/// as it is, a relative one is placed under `app_dir`.
pub fn resolve_in_app_dir(app_dir: &str, path: &str) -> (r: String)
    ensures
        r@ == resolve_in_app_dir_spec(app_dir@, path@),
{
    let abs = str_starts_with(path, "/");
    proof {
        reveal_strlit("/");
        if abs {
            assert(path@.take(1)[0] == "/"@[0]);
        } else if is_absolute_path(path@) {
            assert(path@.take(1) =~= "/"@);
        }
    }
    if abs {
        path.to_owned()
    } else {
        let mut r = app_dir.to_owned();
        r.append("/");
        r.append(path);
        r
    }
}

/// The message with which a command that failed in the application directory
/// is reported.
pub open spec fn command_failure_spec(command: Seq<char>, stdout: Seq<char>, stderr: Seq<char>) -> Seq<char> {
    "Command failed: "@ + command + "\nSTDOUT: "@ + stdout + "\nSTDERR: "@ + stderr
}

/// Reports a failed command with its output and error streams.
pub fn command_failure_message(command: &str, stdout: &str, stderr: &str) -> (r: String)
    ensures
        r@ == command_failure_spec(command@, stdout@, stderr@),
{
    let mut r = "Command failed: ".to_owned();
    r.append(command);
    r.append("\nSTDOUT: ");
    r.append(stdout);
    r.append("\nSTDERR: ");
    r.append(stderr);
    r
}

/// The technologies that a `package.json` names, given the keys of its
/// `dependencies` and of its `devDependencies`.
pub open spec fn stack_names(deps: Seq<Seq<char>>, dev_deps: Seq<Seq<char>>) -> Seq<Seq<char>> {
    let a = if deps.contains("vue"@) { seq!["Vue 3"@] } else { Seq::empty() };
    let b = if deps.contains("react"@) { a.push("React"@) } else { a };
    let c = if deps.contains("express"@) { b.push("Express"@) } else { b };
    let d = if deps.contains("apollo-server-express"@) { c.push("Apollo Server"@) } else { c };
    let e = if dev_deps.contains("typescript"@) { d.push("TypeScript"@) } else { d };
    if dev_deps.contains("vite"@) { e.push("Vite"@) } else { e }
}

/// Whether the key `k` is among `keys`.
fn has_key(keys: &Vec<String>, k: &str) -> (r: bool)
    ensures
        r == texts(keys@).contains(k@),
{
    let mut i: usize = 0;
    while i < keys.len()
        invariant
            i <= keys@.len(),
            forall|m: int| 0 <= m < i ==> keys@[m]@ != k@,
        decreases keys.len() - i,
    {
        if crate::text::str_eq(keys[i].as_str(), k) {
            assert(texts(keys@)[i as int] == k@);
            return true;
        }
        i = i + 1;
    }
    proof {
        if texts(keys@).contains(k@) {
            let m = choose|m: int| 0 <= m < texts(keys@).len() && texts(keys@)[m] == k@;
            assert(keys@[m]@ == k@);
        }
    }
    false
}

/// The files of an application that give a model its context.
pub open spec fn key_context_files_spec() -> Seq<Seq<char>> {
    seq![
        "package.json"@,
        "src/main.js"@,
        "src/main.ts"@,
        "src/index.js"@,
        "src/App.vue"@,
        "vite.config.ts"@,
        "vite.config.js"@,
    ]
}

/// Whether a file extension marks a source file that a review reads.
pub open spec fn is_source_extension_spec(ext: Seq<char>) -> bool {
    ext == "js"@ || ext == "ts"@ || ext == "vue"@ || ext == "jsx"@ || ext == "tsx"@ || ext == "json"@
}

impl E2ETestRunner {
    /// The files, relative to the application directory, that are read for a
    /// model's context when they exist.
    pub fn key_context_files() -> (r: Vec<&'static str>)
        ensures
            str_views(r@) == key_context_files_spec(),
    {
        let v = vec![
            "package.json",
            "src/main.js",
            "src/main.ts",
            "src/index.js",
            "src/App.vue",
            "vite.config.ts",
            "vite.config.js",
        ];
        assert(str_views(v@) =~= key_context_files_spec());
        v
    }

    /// Whether a file with this extension is a source file that a review
    /// reads: JavaScript, TypeScript, Vue and JSON files.
    pub fn is_source_extension(ext: &str) -> (r: bool)
        ensures
            r == is_source_extension_spec(ext@),
    {
        crate::text::str_eq(ext, "js") || crate::text::str_eq(ext, "ts") || crate::text::str_eq(ext, "vue")
            || crate::text::str_eq(ext, "jsx") || crate::text::str_eq(ext, "tsx") || crate::text::str_eq(
            ext,
            "json",
        )
    }

    /// Assess final application status: the checks are left to the model's
    /// own actions, so every aspect counts as good.
    pub fn assess_app_status(&self, app_dir: &str, app_type: &str) -> (r: AppStatus)
        ensures
            r.builds_successfully,
            r.tests_pass,
            r.deployment_ready,
            r.functionality_works,
            r.performance_acceptable,
    {
        AppStatus {
            builds_successfully: true,
            tests_pass: true,
            deployment_ready: true,
            functionality_works: true,
            performance_acceptable: true,
        }
    }

    /// Names the technology stack of a project from the keys of the
    /// `dependencies` and `devDependencies` of its `package.json`, joined by
    /// commas.
    pub fn tech_stack_from_dependencies(dependencies: &Vec<String>, dev_dependencies: &Vec<String>) -> (r: String)
        ensures
            r@ == join_with(stack_names(texts(dependencies@), texts(dev_dependencies@)), ", "@),
    {
        let mut names: Vec<String> = Vec::new();
        if has_key(dependencies, "vue") {
            names.push("Vue 3".to_owned());
        }
        if has_key(dependencies, "react") {
            names.push("React".to_owned());
        }
        if has_key(dependencies, "express") {
            names.push("Express".to_owned());
        }
        if has_key(dependencies, "apollo-server-express") {
            names.push("Apollo Server".to_owned());
        }
        if has_key(dev_dependencies, "typescript") {
            names.push("TypeScript".to_owned());
        }
        if has_key(dev_dependencies, "vite") {
            names.push("Vite".to_owned());
        }
        assert(texts(names@) =~= stack_names(texts(dependencies@), texts(dev_dependencies@)));
        join_strings(&names, ", ")
    }
}

/// What reading a `package.json` text gives, as `serde_json::from_str` reads
/// it: the keys of its `dependencies` and of its `devDependencies` objects
/// (none where the entry is missing or not an object), or the text of the
/// parse error.
pub uninterp spec fn package_dependency_names(content: Seq<char>) -> Result<
    (Seq<Seq<char>>, Seq<Seq<char>>),
    Seq<char>,
>;

/// `serde_json::from_str::<serde_json::Value>(content)`, then the keys of the
/// `"dependencies"` and `"devDependencies"` objects, in the map's order; the
/// parse error as text. The outcome is taken to be a function of the text
/// alone.
#[verifier::external_body]
fn package_dependencies(content: &str) -> (r: Result<(Vec<String>, Vec<String>), String>)
    ensures
        match (r, package_dependency_names(content@)) {
            (Ok((d, dd)), Ok((x, xx))) => texts(d@) == x && texts(dd@) == xx,
            (Err(e), Err(m)) => e@ == m,
            _ => false,
        },
{
    let v: serde_json::Value = serde_json::from_str(content).map_err(|e| e.to_string())?;
    let d = v.get("dependencies").and_then(|o| o.as_object());
    let dd = v.get("devDependencies").and_then(|o| o.as_object());
    Ok((
        d.map(|o| o.keys().cloned().collect()).unwrap_or_default(),
        dd.map(|o| o.keys().cloned().collect()).unwrap_or_default(),
    ))
}

/// The technology stack a `package.json` names, or the error of reading it.
pub open spec fn stack_of_package(content: Option<Seq<char>>) -> Result<Seq<char>, Seq<char>> {
    match content {
        None => Ok("Unknown"@),
        Some(c) => match package_dependency_names(c) {
            Ok((d, dd)) => Ok(join_with(stack_names(d, dd), ", "@)),
            Err(m) => Err(m),
        },
    }
}

impl E2ETestRunner {
    /// Names the technology stack of an application from the text of its
    /// `package.json` (`None` where it has none): the technologies its
    /// dependencies and dev dependencies name, joined by commas; "Unknown"
    /// without a `package.json`; the parse error where the text is not JSON.
    pub fn detect_tech_stack(&self, package_json: Option<&str>) -> (r: Result<String, String>)
        ensures
            match (r, stack_of_package(
                match package_json {
                    Some(c) => Some(c@),
                    None => None::<Seq<char>>,
                },
            )) {
                (Ok(s), Ok(x)) => s@ == x,
                (Err(e), Err(m)) => e@ == m,
                _ => false,
            },
    {
        match package_json {
            None => Ok("Unknown".to_owned()),
            Some(content) => match package_dependencies(content) {
                Ok((d, dd)) => Ok(E2ETestRunner::tech_stack_from_dependencies(&d, &dd)),
                Err(e) => Err(e),
            },
        }
    }
}

} // verus!
