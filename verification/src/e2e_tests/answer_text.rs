//! Reading a model's answer during a pipeline run: the JSON array of an idea
//! breakdown, and the JSON array of actions once credential notices, chatty
//! preambles and markdown fences are cut away.

use vstd::prelude::*;
use crate::text::str_views;
use super::E2ETestRunner;
use crate::text::{
    trim, trim_str, starts_with, ends_with, str_starts_with, str_ends_with, contains,
    str_contains, find_first, chars_of, chars_find, find_char_from, utf8_len, byte_offsets,
    chars_within, chars_within_bytes, lemma_find_from_occurs,
};

verus! {

/// `s` in lower case, as `str::to_lowercase` gives it.
pub uninterp spec fn lowercase_of(s: Seq<char>) -> Seq<char>;

/// `str::to_lowercase`: the text with each character mapped to its Unicode
/// lower case; the result is a function of the text alone.
#[verifier::external_body]
pub(crate) fn to_lowercase(s: &str) -> (r: String)
    ensures
        r@ == lowercase_of(s@),
{
    s.to_lowercase()
}

/// The last index before `j` that holds `c`.
pub open spec fn rfind_char_before(s: Seq<char>, c: char, j: int) -> Option<int>
    decreases j,
{
    if j <= 0 || j > s.len() {
        None
    } else if s[j - 1] == c {
        Some(j - 1)
    } else {
        rfind_char_before(s, c, j - 1)
    }
}

/// The last index that holds `c`, as `str::rfind` finds it (in characters).
pub open spec fn rfind_char(s: Seq<char>, c: char) -> Option<int> {
    rfind_char_before(s, c, s.len() as int)
}

/// The JSON array of an idea breakdown answer: the text from its first `[`
/// through its last `]`; none where the answer has no `[`, no `]`, or its
/// last `]` comes before its first `[`.
pub open spec fn idea_json(response: Seq<char>) -> Option<Seq<char>> {
    match find_char_from(response, '[', 0) {
        Some(s) => match rfind_char(response, ']') {
            Some(e) => if s < e {
                Some(response.subrange(s, e + 1))
            } else {
                None
            },
            None => None,
        },
        None => None,
    }
}

fn find_char_in(v: &Vec<char>, c: char) -> (r: Option<usize>)
    ensures
        match find_char_from(v@, c, 0) {
            Some(k) => r matches Some(x) && x == k,
            None => r is None,
        },
{
    let mut i: usize = 0;
    while i < v.len()
        invariant
            i <= v.len(),
            find_char_from(v@, c, i as int) == find_char_from(v@, c, 0),
        decreases v.len() - i,
    {
        if v[i] == c {
            return Some(i);
        }
        i = i + 1;
    }
    None
}

fn rfind_char_in(v: &Vec<char>, c: char) -> (r: Option<usize>)
    ensures
        match rfind_char(v@, c) {
            Some(k) => r matches Some(x) && x == k,
            None => r is None,
        },
{
    let mut j: usize = v.len();
    while j > 0
        invariant
            j <= v.len(),
            rfind_char_before(v@, c, j as int) == rfind_char(v@, c),
        decreases j,
    {
        if v[j - 1] == c {
            return Some(j - 1);
        }
        j = j - 1;
    }
    None
}

proof fn lemma_find_char_range(s: Seq<char>, c: char, i: int)
    requires
        0 <= i,
    ensures
        find_char_from(s, c, i) matches Some(k) ==> i <= k < s.len() && s[k] == c,
    decreases s.len() - i,
{
    if i < s.len() && s[i] != c {
        lemma_find_char_range(s, c, i + 1);
    }
}

proof fn lemma_rfind_char_range(s: Seq<char>, c: char, j: int)
    ensures
        rfind_char_before(s, c, j) matches Some(k) ==> 0 <= k < j <= s.len() && s[k] == c,
    decreases j,
{
    if 0 < j <= s.len() && s[j - 1] != c {
        lemma_rfind_char_range(s, c, j - 1);
    }
}

/// What the actions answer of a model comes to once cleaned.
#[derive(Debug, Clone, PartialEq, Eq)]
pub enum ActionsText {
    /// No actions: the answer held only notices, or said nothing needs to change.
    NoActions,
    /// The JSON array of actions to decode.
    Json(String),
    /// The answer holds no usable JSON array: the message says why.
    Invalid(String),
}

/// The notices of cached credentials that the client prints before its
/// answer.
pub open spec fn credential_patterns() -> Seq<Seq<char>> {
    seq![
        "loaded cached credentials."@,
        "loaded cached credentials"@,
        "using cached credentials."@,
        "using cached credentials"@,
        "credentials loaded."@,
        "credentials loaded"@,
        "authentication successful."@,
        "authentication successful"@,
        "logged in successfully."@,
        "logged in successfully"@,
        "sign-in successful."@,
        "sign-in successful"@,
        "credentials cached."@,
        "credentials cached"@,
    ]
}

/// The phrases with which a model introduces its actions.
pub open spec fn preamble_patterns() -> Seq<Seq<char>> {
    seq![
        "here are the actions:"@,
        "i'll create the following actions:"@,
        "the following json actions will"@,
        "after reviewing the code, here are the actions:"@,
        "based on the code review, i'll create:"@,
        "i found the following issues to fix:"@,
        "here are the improvements:"@,
        "the code review reveals:"@,
        "i'll make these changes:"@,
        "after analysis, here are the fixes:"@,
        "let me create the necessary actions:"@,
        "i need to create these actions:"@,
        "the solution requires these actions:"@,
    ]
}

/// The phrases with which a model says that nothing needs to change.
pub open spec fn no_change_phrases() -> Seq<Seq<char>> {
    seq![
        "no issues"@,
        "no changes"@,
        "looks good"@,
        "no improvements"@,
        "code is already"@,
        "no actions needed"@,
        "no modifications"@,
    ]
}

/// One cleaning step: when the lower-cased text contains `p`, the text is cut
/// after the byte where that occurrence ends (back to the last whole
/// character, where that byte falls inside one) and trimmed.
pub open spec fn strip_through(c: Seq<char>, p: Seq<char>) -> Seq<char> {
    let low = lowercase_of(c);
    match find_first(low, p) {
        None => c,
        Some(k) => trim(
            c.subrange(chars_within(c, (utf8_len(low.take(k)) + utf8_len(p)) as int), c.len() as int),
        ),
    }
}

/// The cleaning steps for each pattern of `ps`, in order.
pub open spec fn strip_all(c: Seq<char>, ps: Seq<Seq<char>>) -> Seq<char>
    decreases ps.len(),
{
    if ps.len() == 0 {
        c
    } else {
        strip_through(strip_all(c, ps.drop_last()), ps.last())
    }
}

/// `s` without every leading repetition of `p`, as `trim_start_matches` cuts.
pub open spec fn strip_leading(s: Seq<char>, p: Seq<char>) -> Seq<char>
    decreases s.len(),
{
    if p.len() > 0 && starts_with(s, p) {
        strip_leading(s.skip(p.len() as int), p)
    } else {
        s
    }
}

/// `s` without every trailing repetition of `p`, as `trim_end_matches` cuts.
pub open spec fn strip_trailing(s: Seq<char>, p: Seq<char>) -> Seq<char>
    decreases s.len(),
{
    if p.len() > 0 && ends_with(s, p) {
        strip_trailing(s.take(s.len() - p.len()), p)
    } else {
        s
    }
}

/// The answer without notices, preambles and markdown fences.
pub open spec fn cleaned_answer(response: Seq<char>) -> Seq<char> {
    let c = strip_all(trim(response), credential_patterns() + preamble_patterns());
    let c1 = trim(strip_leading(c, "```json"@));
    let c2 = trim(strip_leading(c1, "```"@));
    trim(strip_trailing(c2, "```"@))
}

/// The first 200 bytes of `c` (all of it when shorter; back to the last
/// whole character where byte 200 falls inside one), by character index.
pub open spec fn preview_end(c: Seq<char>) -> int {
    chars_within(c, 200)
}

/// Whether any of `phrases` occurs in `s`.
pub open spec fn mentions_any(s: Seq<char>, phrases: Seq<Seq<char>>) -> bool {
    exists|k: int| 0 <= k < phrases.len() && contains(s, #[trigger] phrases[k])
}

/// What reading the actions out of `response` gives.
pub open spec fn actions_text(response: Seq<char>) -> ActionsTextView {
    let c = cleaned_answer(response);
    if utf8_len(c) < 5 {
        ActionsTextView::NoActions
    } else {
        match (find_char_from(c, '[', 0), rfind_char(c, ']')) {
            (Some(s), Some(e)) => if e <= s {
                ActionsTextView::Invalid(
                    "Invalid JSON array boundaries in response. Cleaned response was: '"@
                        + c.take(preview_end(c)) + "'"@,
                )
            } else {
                ActionsTextView::Json(c.subrange(s, e + 1))
            },
            _ => if mentions_any(lowercase_of(c), no_change_phrases()) {
                ActionsTextView::NoActions
            } else {
                ActionsTextView::Invalid(
                    "No valid JSON array found in response. Cleaned response was: '"@
                        + c.take(preview_end(c)) + "'"@,
                )
            },
        }
    }
}

/// `ActionsText` as plain values.
pub enum ActionsTextView {
    NoActions,
    Json(Seq<char>),
    Invalid(Seq<char>),
}

/// The plain values of an `ActionsText`.
pub open spec fn actions_text_view(a: ActionsText) -> ActionsTextView {
    match a {
        ActionsText::NoActions => ActionsTextView::NoActions,
        ActionsText::Json(j) => ActionsTextView::Json(j@),
        ActionsText::Invalid(m) => ActionsTextView::Invalid(m@),
    }
}

/// The text takes at most four bytes per character.
proof fn lemma_utf8_len_bound(s: Seq<char>)
    ensures
        utf8_len(s) <= 4 * s.len(),
    decreases s.len(),
{
    if s.len() > 0 {
        lemma_utf8_len_bound(s.drop_last());
    }
}

/// One cleaning step on `c` for the pattern `p`.
fn strip_through_exec(c: &str, p: &str) -> (r: String)
    ensures
        r@ == strip_through(c@, p@),
{
    let low = to_lowercase(c);
    let lv = chars_of(low.as_str());
    let pv = chars_of(p);
    match chars_find(&lv, &pv) {
        None => c.to_owned(),
        Some(k) => {
            proof {
                lemma_find_from_occurs(lv@, pv@, 0);
                lemma_utf8_len_bound(lv@.take(k as int));
                lemma_utf8_len_bound(pv@);
                assert(pv@.take(pv@.len() as int) =~= pv@);
            }
            let loff = byte_offsets(&lv);
            let poff = byte_offsets(&pv);
            let b: u128 = loff[k] + poff[pv.len()];
            let cv = chars_of(c);
            let coff = byte_offsets(&cv);
            let j = chars_within_bytes(&coff, b, Ghost(c@));
            let n = c.unicode_len();
            let rest = c.substring_char(j, n);
            trim_str(rest).to_owned()
        },
    }
}

/// Cuts every leading repetition of `p` off `s`.
fn strip_leading_exec(s: &str, p: &str) -> (r: String)
    ensures
        r@ == strip_leading(s@, p@),
{
    let mut cur = s.to_owned();
    let np = p.unicode_len();
    if np == 0 {
        return cur;
    }
    while str_starts_with(cur.as_str(), p)
        invariant
            np == p@.len(),
            np > 0,
            strip_leading(cur@, p@) == strip_leading(s@, p@),
        decreases cur@.len(),
    {
        let n = cur.as_str().unicode_len();
        let next = cur.as_str().substring_char(np, n).to_owned();
        assert(next@ =~= cur@.skip(np as int));
        cur = next;
    }
    cur
}

/// Cuts every trailing repetition of `p` off `s`.
fn strip_trailing_exec(s: &str, p: &str) -> (r: String)
    ensures
        r@ == strip_trailing(s@, p@),
{
    let mut cur = s.to_owned();
    let np = p.unicode_len();
    if np == 0 {
        return cur;
    }
    while str_ends_with(cur.as_str(), p)
        invariant
            np == p@.len(),
            np > 0,
            strip_trailing(cur@, p@) == strip_trailing(s@, p@),
        decreases cur@.len(),
    {
        let n = cur.as_str().unicode_len();
        let next = cur.as_str().substring_char(0, n - np).to_owned();
        assert(next@ =~= cur@.take(cur@.len() - p@.len()));
        cur = next;
    }
    cur
}

/// The patterns cut in order: credential notices, then preambles.
fn cleaning_patterns() -> (r: Vec<&'static str>)
    ensures
        str_views(r@) == credential_patterns() + preamble_patterns(),
{
    let v: Vec<&'static str> = vec![
        "loaded cached credentials.",
        "loaded cached credentials",
        "using cached credentials.",
        "using cached credentials",
        "credentials loaded.",
        "credentials loaded",
        "authentication successful.",
        "authentication successful",
        "logged in successfully.",
        "logged in successfully",
        "sign-in successful.",
        "sign-in successful",
        "credentials cached.",
        "credentials cached",
        "here are the actions:",
        "i'll create the following actions:",
        "the following json actions will",
        "after reviewing the code, here are the actions:",
        "based on the code review, i'll create:",
        "i found the following issues to fix:",
        "here are the improvements:",
        "the code review reveals:",
        "i'll make these changes:",
        "after analysis, here are the fixes:",
        "let me create the necessary actions:",
        "i need to create these actions:",
        "the solution requires these actions:",
    ];
    assert(str_views(v@) =~= credential_patterns() + preamble_patterns());
    v
}

/// The phrases that say nothing needs to change.
fn no_change_list() -> (r: Vec<&'static str>)
    ensures
        str_views(r@) == no_change_phrases(),
{
    let v: Vec<&'static str> = vec![
        "no issues",
        "no changes",
        "looks good",
        "no improvements",
        "code is already",
        "no actions needed",
        "no modifications",
    ];
    assert(str_views(v@) =~= no_change_phrases());
    v
}

/// The answer without notices, preambles and fences.
fn clean_answer(response: &str) -> (r: String)
    ensures
        r@ == cleaned_answer(response@),
{
    let pats = cleaning_patterns();
    let ghost ps = credential_patterns() + preamble_patterns();
    let mut cur = trim_str(response).to_owned();
    let mut i: usize = 0;
    assert(ps.take(0) =~= Seq::<Seq<char>>::empty());
    while i < pats.len()
        invariant
            str_views(pats@) == ps,
            ps == credential_patterns() + preamble_patterns(),
            i <= pats@.len(),
            strip_all(trim(response@), ps.take(i as int)) == cur@,
        decreases pats.len() - i,
    {
        proof {
            assert(ps.take(i + 1).drop_last() =~= ps.take(i as int));
            assert(ps.take(i + 1).last() == pats@[i as int]@);
        }
        cur = strip_through_exec(cur.as_str(), pats[i]);
        i = i + 1;
    }
    proof {
        assert(ps.take(ps.len() as int) =~= ps);
    }
    let c1 = strip_leading_exec(cur.as_str(), "```json");
    let c1 = trim_str(c1.as_str()).to_owned();
    let c2 = strip_leading_exec(c1.as_str(), "```");
    let c2 = trim_str(c2.as_str()).to_owned();
    let c3 = strip_trailing_exec(c2.as_str(), "```");
    trim_str(c3.as_str()).to_owned()
}

/// Whether any phrase of `phrases` occurs in `s`.
fn mentions_any_exec(s: &str, phrases: &Vec<&str>) -> (r: bool)
    ensures
        r == mentions_any(s@, str_views(phrases@)),
{
    let mut i: usize = 0;
    while i < phrases.len()
        invariant
            i <= phrases@.len(),
            forall|k: int| 0 <= k < i ==> !contains(s@, #[trigger] str_views(phrases@)[k]),
        decreases phrases.len() - i,
    {
        if str_contains(s, phrases[i]) {
            assert(contains(s@, str_views(phrases@)[i as int]));
            return true;
        }
        i = i + 1;
    }
    false
}

/// What `serde_json::from_str::<Vec<serde_json::Value>>` gives for `text`:
/// the number of values in the array, or the text of the parse error.
pub uninterp spec fn json_array_outcome(text: Seq<char>) -> Result<nat, Seq<char>>;

/// `serde_json::from_str::<Vec<serde_json::Value>>(text)`, its error as text.
/// The values are opaque here; only their number is stated.
#[verifier::external_body]
fn parse_json_array(text: &str) -> (r: Result<Vec<serde_json::Value>, String>)
    ensures
        match (r, json_array_outcome(text@)) {
            (Ok(v), Ok(n)) => v@.len() == n,
            (Err(e), Err(m)) => e@ == m,
            _ => false,
        },
{
    serde_json::from_str::<Vec<serde_json::Value>>(text).map_err(|e| e.to_string())
}

/// What reading the tasks of an idea breakdown answer gives: the number of
/// tasks in its JSON array, or the error message.
pub open spec fn idea_tasks_outcome(response: Seq<char>) -> Result<nat, Seq<char>> {
    match idea_json(response) {
        None => Err(
            "Failed to parse idea breakdown response: no JSON array in the response"@,
        ),
        Some(j) => match json_array_outcome(j) {
            Ok(n) => Ok(n),
            Err(m) => Err("Failed to parse idea breakdown response: "@ + m),
        },
    }
}

impl E2ETestRunner {
    /// The JSON array of an idea breakdown answer: from its first `[`
    /// through its last `]`, or `None` where it holds no such array.
    pub fn idea_breakdown_json(&self, response: &str) -> (r: Option<String>)
        ensures
            match idea_json(response@) {
                Some(j) => r matches Some(x) && x@ == j,
                None => r is None,
            },
    {
        let v = chars_of(response);
        proof {
            lemma_find_char_range(v@, '[', 0);
            lemma_rfind_char_range(v@, ']', v@.len() as int);
        }
        match find_char_in(&v, '[') {
            None => None,
            Some(s) => match rfind_char_in(&v, ']') {
                None => None,
                Some(e) => {
                    if s < e {
                        Some(response.substring_char(s, e + 1).to_owned())
                    } else {
                        None
                    }
                },
            },
        }
    }

    /// Reads the tasks of an idea breakdown answer: its JSON array (from its
    /// first `[` through its last `]`) decoded as a list of values. An answer
    /// without such an array, or whose array does not parse, gives
    /// "Failed to parse idea breakdown response: " and the reason.
    pub fn idea_breakdown_tasks(&self, response: &str) -> (r: Result<Vec<serde_json::Value>, String>)
        ensures
            match (r, idea_tasks_outcome(response@)) {
                (Ok(v), Ok(n)) => v@.len() == n,
                (Err(e), Err(m)) => e@ == m,
                _ => false,
            },
    {
        match self.idea_breakdown_json(response) {
            None => Err(
                "Failed to parse idea breakdown response: no JSON array in the response".to_owned(),
            ),
            Some(json) => match parse_json_array(json.as_str()) {
                Ok(v) => Ok(v),
                Err(e) => {
                    let mut m = "Failed to parse idea breakdown response: ".to_owned();
                    m.append(e.as_str());
                    Err(m)
                },
            },
        }
    }

    /// Reads the actions out of a model's answer: cuts credential notices,
    /// preambles and markdown fences, then takes the text from the first `[`
    /// through the last `]`. A near-empty answer, or one without an array
    /// that says nothing needs to change, gives no actions.
    pub fn actions_response_text(&self, response: &str) -> (r: ActionsText)
        ensures
            actions_text_view(r) == actions_text(response@),
    {
        let c = clean_answer(response);
        let cv = chars_of(c.as_str());
        let off = byte_offsets(&cv);
        let total = off[cv.len()];
        proof {
            assert(cv@.take(cv@.len() as int) =~= cv@);
        }
        if total < 5 {
            return ActionsText::NoActions;
        }
        let preview = chars_within_bytes(&off, 200, Ghost(c@));
        proof {
            lemma_find_char_range(cv@, '[', 0);
            lemma_rfind_char_range(cv@, ']', cv@.len() as int);
        }
        match (find_char_in(&cv, '['), rfind_char_in(&cv, ']')) {
            (Some(s), Some(e)) => {
                if e <= s {
                    let mut m = "Invalid JSON array boundaries in response. Cleaned response was: '".to_owned();
                    m.append(c.as_str().substring_char(0, preview));
                    m.append("'");
                    ActionsText::Invalid(m)
                } else {
                    ActionsText::Json(c.as_str().substring_char(s, e + 1).to_owned())
                }
            },
            _ => {
                let low = to_lowercase(c.as_str());
                let phrases = no_change_list();
                if mentions_any_exec(low.as_str(), &phrases) {
                    ActionsText::NoActions
                } else {
                    let mut m = "No valid JSON array found in response. Cleaned response was: '".to_owned();
                    m.append(c.as_str().substring_char(0, preview));
                    m.append("'");
                    ActionsText::Invalid(m)
                }
            },
        }
    }
}

/// The JSON read out of an actions answer is always an array's text: it
/// opens with `[` and closes with `]`.
pub proof fn lemma_actions_json_is_bracketed(response: Seq<char>)
    ensures
        actions_text(response) matches ActionsTextView::Json(j) ==> j.len() >= 2 && j[0] == '['
            && j[j.len() - 1] == ']',
{
    let c = cleaned_answer(response);
    lemma_find_char_range(c, '[', 0);
    lemma_rfind_char_range(c, ']', c.len() as int);
}

/// The first index of `v` that holds `c`.
pub fn find_char_in_chars(v: &Vec<char>, c: char) -> (r: Option<usize>)
    ensures
        match find_char_from(v@, c, 0) {
            Some(k) => r matches Some(x) && x == k,
            None => r is None,
        },
{
    find_char_in(v, c)
}

/// The last index of `v` that holds `c`.
pub fn rfind_char_in_chars(v: &Vec<char>, c: char) -> (r: Option<usize>)
    ensures
        match rfind_char(v@, c) {
            Some(k) => r matches Some(x) && x == k,
            None => r is None,
        },
{
    rfind_char_in(v, c)
}

/// A found character lies within the text: the first `open` and the last
/// `close`.
pub proof fn lemma_char_ranges(s: Seq<char>, open: char, close: char)
    ensures
        find_char_from(s, open, 0) matches Some(k) ==> 0 <= k < s.len() && s[k] == open,
        rfind_char(s, close) matches Some(k) ==> 0 <= k < s.len() && s[k] == close,
{
    lemma_find_char_range(s, open, 0);
    lemma_rfind_char_range(s, close, s.len() as int);
}

} // verus!
