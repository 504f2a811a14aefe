//! Which files of a project are gathered as context for a model, and how a
//! long file is cut down.

use vstd::prelude::*;
use crate::text::str_views;
use crate::text::{starts_with, str_starts_with, str_eq, chars_of, utf8_len, byte_offsets, chars_within, chars_within_bytes};
use crate::text_fmt::{dec, push_dec_wide};

verus! {

/// The extensions of the files gathered as context.
pub open spec fn relevant_extensions_spec() -> Seq<Seq<char>> {
    seq![
        "rs"@, "js"@, "ts"@, "jsx"@, "tsx"@, "vue"@, "py"@, "go"@, "java"@, "cpp"@, "c"@, "h"@,
        "json"@, "toml"@, "yaml"@, "yml"@, "md"@, "txt"@, "html"@, "css"@, "scss"@, "less"@,
        "php"@, "rb"@, "swift"@, "kt"@, "cs"@, "scala"@, "sh"@, "dockerfile"@, "xml"@,
    ]
}

/// The directories that are never searched: dependencies, build output and
/// caches.
pub open spec fn skipped_directories_spec() -> Seq<Seq<char>> {
    seq!["node_modules"@, "target"@, "build"@, "dist"@, "__pycache__"@, ".git"@]
}

fn contains_str(list: &Vec<&str>, x: &str) -> (r: bool)
    ensures
        r == str_views(list@).contains(x@),
{
    let mut i: usize = 0;
    while i < list.len()
        invariant
            i <= list@.len(),
            forall|m: int| 0 <= m < i ==> list@[m]@ != x@,
        decreases list.len() - i,
    {
        if str_eq(list[i], x) {
            assert(str_views(list@)[i as int] == x@);
            return true;
        }
        i = i + 1;
    }
    proof {
        if str_views(list@).contains(x@) {
            let m = choose|m: int| 0 <= m < str_views(list@).len() && str_views(list@)[m] == x@;
            assert(list@[m]@ == x@);
        }
    }
    false
}

/// The extensions of the files gathered as context.
pub fn relevant_extensions() -> (r: Vec<&'static str>)
    ensures
        str_views(r@) == relevant_extensions_spec(),
{
    let v = vec![
        "rs", "js", "ts", "jsx", "tsx", "vue", "py", "go", "java", "cpp", "c", "h", "json", "toml",
        "yaml", "yml", "md", "txt", "html", "css", "scss", "less", "php", "rb", "swift", "kt", "cs",
        "scala", "sh", "dockerfile", "xml",
    ];
    assert(str_views(v@) =~= relevant_extensions_spec());
    v
}

/// Whether a file with this extension is gathered as context.
pub fn is_relevant_extension(ext: &str) -> (r: bool)
    ensures
        r == relevant_extensions_spec().contains(ext@),
{
    let list = relevant_extensions();
    contains_str(&list, ext)
}

/// Whether a file or directory is hidden: its name starts with a dot.
pub fn is_hidden_name(name: &str) -> (r: bool)
    ensures
        r == starts_with(name@, "."@),
{
    str_starts_with(name, ".")
}

/// Whether a directory is never searched for context files.
pub fn is_skipped_directory(name: &str) -> (r: bool)
    ensures
        r == skipped_directories_spec().contains(name@),
{
    let list = vec!["node_modules", "target", "build", "dist", "__pycache__", ".git"];
    assert(str_views(list@) =~= skipped_directories_spec());
    contains_str(&list, name)
}

/// The most bytes of a file that are sent whole.
pub open spec fn context_limit() -> nat {
    2000
}

/// The context text of a file: the file itself, or its first 2000 bytes (cut
/// back to the last whole character) and a note of its full length in bytes.
pub open spec fn truncated_spec(content: Seq<char>) -> Seq<char> {
    if utf8_len(content) > context_limit() {
        content.take(chars_within(content, context_limit() as int)) + "...\n[Content truncated - "@
            + dec(utf8_len(content)) + " total characters]"@
    } else {
        content
    }
}

/// Cuts a long file down to its first 2000 bytes (back to the last whole
/// character), noting its full length.
pub fn truncated_content(content: &str) -> (r: String)
    ensures
        r@ == truncated_spec(content@),
{
    let v = chars_of(content);
    let off = byte_offsets(&v);
    proof {
        assert(v@.take(v@.len() as int) =~= v@);
    }
    let total = off[v.len()];
    if total > 2000 {
        let c = chars_within_bytes(&off, 2000, Ghost(content@));
        let mut r = content.substring_char(0, c).to_owned();
        r.append("...\n[Content truncated - ");
        push_dec_wide(&mut r, total);
        r.append(" total characters]");
        r
    } else {
        content.to_owned()
    }
}

} // verus!
