//! Reading the answers of the Gemini command line client: pulling the JSON
//! document out of an answer, sorting answers by kind, and spotting an
//! agent's rejection.

use vstd::prelude::*;
use crate::error::OrchestratorError;
use crate::enums::llm_response::{DecodedJson, LLMResponse, is_decoded_response, is_rejection};
use crate::text::{
    chars_of, contains, find_char_from, join_lines, lines, lines_of, starts_with, str_contains,
    str_eq, str_starts_with, trim, trim_str, texts,
};

verus! {

/// Gemini CLI utility functions
pub struct GeminiCLI;

/// The lines of a markdown answer that lie in its JSON code block: those
/// after a line that opens a block with three backquotes and `json`, up to
/// the first line of three backquotes that closes it.
pub open spec fn md_block_lines(ls: Seq<Seq<char>>, inside: bool) -> Seq<Seq<char>>
    decreases ls.len(),
{
    if ls.len() == 0 {
        Seq::empty()
    } else {
        let l = ls[0];
        if starts_with(trim(l), "```json"@) {
            md_block_lines(ls.drop_first(), true)
        } else if trim(l) == "```"@ && inside {
            Seq::empty()
        } else if inside {
            seq![l] + md_block_lines(ls.drop_first(), true)
        } else {
            md_block_lines(ls.drop_first(), false)
        }
    }
}

/// The index of the character that closes the bracket scan begun at `i` with
/// nesting depth `depth`: the first closing character that brings the depth
/// back to zero.
pub open spec fn bracket_scan(s: Seq<char>, i: int, depth: int, open: char, close: char) -> Option<
    int,
>
    decreases s.len() - i,
{
    if i < 0 || i >= s.len() {
        None
    } else if s[i] == open {
        bracket_scan(s, i + 1, depth + 1, open, close)
    } else if s[i] == close {
        if depth - 1 == 0 {
            Some(i)
        } else {
            bracket_scan(s, i + 1, depth - 1, open, close)
        }
    } else {
        bracket_scan(s, i + 1, depth, open, close)
    }
}

/// Where the embedded JSON of a text starts: the index of its first `[` or
/// `{`, whichever comes first, and whether it is an array.
pub open spec fn json_start(t: Seq<char>) -> Option<(int, bool)> {
    let a = find_char_from(t, '[', 0);
    let c = find_char_from(t, '{', 0);
    match a {
        Some(ka) => match c {
            Some(kc) => if ka < kc {
                Some((ka, true))
            } else {
                Some((kc, false))
            },
            None => Some((ka, true)),
        },
        None => match c {
            Some(kc) => Some((kc, false)),
            None => None,
        },
    }
}

/// The index of the character that closes the embedded JSON of a text: the
/// bracket of the opening kind that brings the nesting depth back to zero.
pub open spec fn json_end(t: Seq<char>) -> Option<int> {
    match json_start(t) {
        Some((k, is_array)) => if is_array {
            bracket_scan(t, k, 0, '[', ']')
        } else {
            bracket_scan(t, k, 0, '{', '}')
        },
        None => None,
    }
}

/// Whether the answer is read by bracket matching (neither a markdown block
/// nor a bare JSON document).
pub open spec fn is_embedded_json(t: Seq<char>) -> bool {
    !starts_with(t, "```json"@) && !starts_with(t, "["@) && !starts_with(t, "{"@)
}

/// The JSON document of an answer, or the message of the error that reading
/// it gives.
pub open spec fn extract_json(response: Seq<char>) -> Result<Seq<char>, Seq<char>> {
    let t = trim(response);
    if starts_with(t, "```json"@) {
        let j = join_lines(md_block_lines(lines(t), false));
        if trim(j).len() == 0 {
            Err("No JSON found in markdown block"@)
        } else {
            Ok(j)
        }
    } else if starts_with(t, "["@) || starts_with(t, "{"@) {
        Ok(t)
    } else {
        match json_start(t) {
            None => Err("No JSON found in response"@),
            Some((k, is_array)) => match json_end(t) {
                None => Err("No matching closing bracket/brace found"@),
                Some(i) => Ok(t.subrange(k, i + 1)),
            },
        }
    }
}

/// The kind of answer that the JSON document of an answer looks like, judged
/// by the keys it mentions.
pub open spec fn detected_type(response: Seq<char>) -> Seq<char> {
    match extract_json(response) {
        Err(_) => "text"@,
        Ok(j) => if starts_with(j, "["@) && (contains(j, "\"Write\""@) || contains(j, "\"Read\""@)
            || contains(j, "\"Delete\""@) || contains(j, "\"Update\""@) || contains(
            j,
            "\"actions\""@,
        )) {
            "action_array"@
        } else if contains(j, "\"Reject\""@) && contains(j, "\"reason\""@) {
            "agent_rejection"@
        } else if contains(j, "\"tasks\""@) && contains(j, "\"TaskInput\""@) {
            "idea_breakdown"@
        } else if contains(j, "\"issue_analysis\""@) {
            "ci_cd_fix"@
        } else if contains(j, "\"deployment_strategy\""@) {
            "docker_deployment"@
        } else if contains(j, "\"overall_quality_score\""@) {
            "qa_analysis"@
        } else if contains(j, "\"synchronization_analysis\""@) {
            "api_synchronization"@
        } else if contains(j, "\"performance_analysis\""@) {
            "performance_optimization"@
        } else {
            "structured_json"@
        },
    }
}

/// Whether a text carries one of the words that mark a rejection.
pub open spec fn mentions_rejection(response: Seq<char>) -> bool {
    contains(response, "Reject"@) || contains(response, "rejection"@) || contains(
        response,
        "blocking_issues"@,
    )
}

/// The models the command line client is known to offer, the preferred one first.
pub open spec fn known_models() -> Seq<Seq<char>> {
    seq![
        "gemini-2.5-flash"@,
        "gemini-2.5-pro"@,
        "gemini-1.5-flash"@,
        "gemini-1.5-pro"@,
        "gemini-1.0-pro"@,
    ]
}

/// Whether an error that the client printed is worth another attempt: an
/// internal error, a server error, a time-out, a rate limit or an outage.
pub open spec fn is_retryable_output(stderr: Seq<char>) -> bool {
    ||| contains(stderr, "INTERNAL"@)
    ||| contains(stderr, "500"@)
    ||| contains(stderr, "timeout"@)
    ||| contains(stderr, "rate limit"@)
    ||| contains(stderr, "temporarily unavailable"@)
}

/// What to do after a failed attempt to query the client.
#[derive(Debug, Clone, Copy, PartialEq, Eq, Structural)]
pub enum RetryDecision {
    /// Report the failure.
    GiveUp,
    /// Wait this many seconds, then try again.
    RetryAfter(u64),
}

/// What to do after attempt `attempt` (counted from 1) of `max_retries`
/// failed with `stderr`: give up when the error is not retryable or the
/// attempts are used up, else wait `2^(attempt-1)` seconds.
pub open spec fn retry_decision_spec(attempt: u32, max_retries: u32, stderr: Seq<char>) -> RetryDecision {
    if !is_retryable_output(stderr) || attempt == max_retries {
        RetryDecision::GiveUp
    } else {
        RetryDecision::RetryAfter(pow2((attempt - 1) as nat) as u64)
    }
}

/// Whether an attempt failed with an error worth another attempt.
pub open spec fn is_retryable_failure(outcome: Option<Seq<char>>) -> bool {
    match outcome {
        Some(e) => is_retryable_output(e),
        None => false,
    }
}

/// A query's retry loop from attempt `attempt` (counted from 1) on, where
/// attempt `k` gives `outcomes[k - 1]`: `None` where it succeeds, else the
/// error the client printed. The waits it makes (in seconds, one before each
/// retry) and whether it ends in success. Each failed round goes as
/// `retry_decision_spec` decides.
pub open spec fn retry_run(attempt: u32, max_retries: u32, outcomes: Seq<Option<Seq<char>>>) -> (
    Seq<u64>,
    bool,
)
    decreases max_retries - attempt,
{
    if attempt < 1 || attempt > max_retries || outcomes.len() < attempt {
        (Seq::empty(), false)
    } else {
        match outcomes[attempt - 1] {
            None => (Seq::empty(), true),
            Some(stderr) => match retry_decision_spec(attempt, max_retries, stderr) {
                RetryDecision::GiveUp => (Seq::empty(), false),
                RetryDecision::RetryAfter(d) => {
                    let rest = retry_run((attempt + 1) as u32, max_retries, outcomes);
                    (seq![d] + rest.0, rest.1)
                },
            },
        }
    }
}

/// The power of two `2^e`.
pub open spec fn pow2(e: nat) -> nat
    decreases e,
{
    if e == 0 {
        1
    } else {
        2 * pow2((e - 1) as nat)
    }
}

/// The first index at or after `i` that holds `c`.
fn find_char(v: &Vec<char>, c: char) -> (r: Option<usize>)
    ensures
        match find_char_from(v@, c, 0) {
            Some(k) => r matches Some(x) && x == k,
            None => r is None,
        },
{
    let mut i: usize = 0;
    while i < v.len()
        invariant
            i <= v.len(),
            find_char_from(v@, c, i as int) == find_char_from(v@, c, 0),
        decreases v.len() - i,
    {
        if v[i] == c {
            return Some(i);
        }
        i = i + 1;
    }
    None
}

/// Where the embedded JSON of the text `v` starts.
fn locate_json_start(v: &Vec<char>) -> (r: Option<(usize, bool)>)
    ensures
        match json_start(v@) {
            Some((k, a)) => r matches Some((rk, ra)) && rk == k && ra == a,
            None => r is None,
        },
{
    let a = find_char(v, '[');
    let c = find_char(v, '{');
    match a {
        Some(ka) => match c {
            Some(kc) => {
                if ka < kc {
                    Some((ka, true))
                } else {
                    Some((kc, false))
                }
            },
            None => Some((ka, true)),
        },
        None => match c {
            Some(kc) => Some((kc, false)),
            None => None,
        },
    }
}

/// Scans for the character that closes the bracket opened at index `b`.
fn scan_brackets(v: &Vec<char>, b: usize, open: char, close: char) -> (r: Option<usize>)
    requires
        open != close,
    ensures
        match bracket_scan(v@, b as int, 0, open, close) {
            Some(i) => r matches Some(x) && x == i,
            None => r is None,
        },
{
    if b >= v.len() {
        return None;
    }
    let start = b;
    let mut depth: i128 = 0;
    let mut i: usize = start;
    while i < v.len()
        invariant
            start <= i <= v.len(),
            start == b,
            open != close,
            -(i - start) <= depth <= i - start,
            bracket_scan(v@, i as int, depth as int, open, close) == bracket_scan(
                v@,
                start as int,
                0,
                open,
                close,
            ),
        decreases v.len() - i,
    {
        if v[i] == open {
            depth = depth + 1;
        } else if v[i] == close {
            depth = depth - 1;
            if depth == 0 {
                return Some(i);
            }
        }
        i = i + 1;
    }
    None
}

/// Scans for the end of the embedded JSON that starts at index `b`.
fn scan_json(v: &Vec<char>, b: usize, is_array: bool) -> (r: Option<usize>)
    ensures
        match (if is_array {
            bracket_scan(v@, b as int, 0, '[', ']')
        } else {
            bracket_scan(v@, b as int, 0, '{', '}')
        }) {
            Some(i) => r matches Some(x) && x == i,
            None => r is None,
        },
{
    if is_array {
        scan_brackets(v, b, '[', ']')
    } else {
        scan_brackets(v, b, '{', '}')
    }
}

/// Joins lines with line feeds.
fn join_with_newlines(block: &Vec<&str>, Ghost(ls): Ghost<Seq<Seq<char>>>) -> (r: String)
    requires
        block@.len() == ls.len(),
        forall|k: int| 0 <= k < ls.len() ==> #[trigger] block@[k]@ == ls[k],
    ensures
        r@ == join_lines(ls),
{
    let mut out = String::new();
    let mut k: usize = 0;
    while k < block.len()
        invariant
            block@.len() == ls.len(),
            forall|m: int| 0 <= m < ls.len() ==> #[trigger] block@[m]@ == ls[m],
            k <= block.len(),
            out@ == join_lines(ls.take(k as int)),
        decreases block.len() - k,
    {
        proof {
            reveal_strlit("\n");
        }
        if k > 0 {
            out.append("\n");
        }
        out.append(block[k]);
        assert(ls.take(k + 1).drop_last() =~= ls.take(k as int));
        k = k + 1;
        assert(out@ =~= join_lines(ls.take(k as int)));
    }
    assert(ls.take(ls.len() as int) =~= ls);
    out
}

/// The lines of a markdown answer's JSON block.
fn markdown_block(t: &str) -> (r: String)
    ensures
        r@ == join_lines(md_block_lines(lines(t@), false)),
{
    let ls = lines_of(t);
    let ghost all = lines(t@);
    let mut block: Vec<&str> = Vec::new();
    let ghost mut acc: Seq<Seq<char>> = Seq::empty();
    let mut inside = false;
    let mut done = false;
    let mut i: usize = 0;
    assert(all.skip(0) =~= all);
    while i < ls.len() && !done
        invariant
            ls@.len() == all.len(),
            forall|k: int| 0 <= k < all.len() ==> #[trigger] ls@[k]@ == all[k],
            i <= ls.len(),
            block@.len() == acc.len(),
            forall|k: int| 0 <= k < acc.len() ==> #[trigger] block@[k]@ == acc[k],
            done ==> md_block_lines(all, false) == acc,
            !done ==> md_block_lines(all, false) == acc + md_block_lines(all.skip(i as int), inside),
        decreases ls.len() - i,
    {
        let line = ls[i];
        let tl = trim_str(line);
        assert(all.skip(i as int)[0] == all[i as int]);
        assert(all.skip(i as int).drop_first() =~= all.skip(i + 1));
        if str_starts_with(tl, "```json") {
            inside = true;
        } else if str_eq(tl, "```") && inside {
            done = true;
            assert(acc + Seq::<Seq<char>>::empty() =~= acc);
        } else if inside {
            block.push(line);
            proof {
                let old_acc = acc;
                acc = acc.push(line@);
                assert(old_acc + (seq![line@] + md_block_lines(all.skip(i + 1), true)) =~= acc
                    + md_block_lines(all.skip(i + 1), true));
            }
        }
        i = i + 1;
    }
    if !done {
        assert(all.skip(i as int) =~= Seq::<Seq<char>>::empty());
        assert(acc + Seq::<Seq<char>>::empty() =~= acc);
    }
    join_with_newlines(&block, Ghost(acc))
}

impl GeminiCLI {
    /// Get response type from raw response without full parsing
    pub fn detect_response_type(response: &str) -> (r: &'static str)
        ensures
            r@ == detected_type(response@),
    {
        match GeminiCLI::extract_json_from_response(response) {
            Err(_) => "text",
            Ok(json) => {
                let j = json.as_str();
                proof {
                    reveal_strlit("[");
                }
                if str_starts_with(j, "[") && (str_contains(j, "\"Write\"") || str_contains(
                    j,
                    "\"Read\"",
                ) || str_contains(j, "\"Delete\"") || str_contains(j, "\"Update\"")
                    || str_contains(j, "\"actions\"")) {
                    return "action_array";
                }
                if str_contains(j, "\"Reject\"") && str_contains(j, "\"reason\"") {
                    return "agent_rejection";
                }
                if str_contains(j, "\"tasks\"") && str_contains(j, "\"TaskInput\"") {
                    return "idea_breakdown";
                }
                if str_contains(j, "\"issue_analysis\"") {
                    return "ci_cd_fix";
                }
                if str_contains(j, "\"deployment_strategy\"") {
                    return "docker_deployment";
                }
                if str_contains(j, "\"overall_quality_score\"") {
                    return "qa_analysis";
                }
                if str_contains(j, "\"synchronization_analysis\"") {
                    return "api_synchronization";
                }
                if str_contains(j, "\"performance_analysis\"") {
                    return "performance_optimization";
                }
                "structured_json"
            },
        }
    }

    /// Parse a raw LLM response string into a structured LLMResponse enum.
    /// The JSON document is pulled out of the answer; `decoded` is what
    /// decoding that document as each response shape gave, and the first
    /// shape that fits decides the response.
    pub fn parse_response(response: &str, decoded: DecodedJson) -> (r: Result<
        LLMResponse,
        OrchestratorError,
    >)
        ensures
            match extract_json(response@) {
                Ok(j) => r matches Ok(x) && is_decoded_response(j, decoded, x),
                Err(m) => r matches Err(OrchestratorError::Internal { message }) && message@ == m,
            },
    {
        let json_str = GeminiCLI::extract_json_from_response(response)?;
        Ok(LLMResponse::from_decoded_json(json_str.as_str(), decoded))
    }

    /// Check if response is a rejection. An answer whose JSON can be read is
    /// read as one of the response shapes, none of which is an agent's
    /// rejection; an answer without JSON counts as a rejection when it
    /// mentions `Reject`, `rejection` or `blocking_issues`.
    pub fn is_rejection_response(response: &str) -> (r: bool)
        ensures
            r == (extract_json(response@) is Err && mentions_rejection(response@)),
    {
        match GeminiCLI::extract_json_from_response(response) {
            Ok(_) => false,
            Err(_) => str_contains(response, "Reject") || str_contains(response, "rejection")
                || str_contains(response, "blocking_issues"),
        }
    }

    /// Get rejection details from response: the reason and the blocking
    /// issues of an answer whose JSON document is an agent's rejection.
    /// `decoded` is what decoding that document gave; an answer without a
    /// JSON document has no details.
    pub fn extract_rejection_details(response: &str, decoded: DecodedJson) -> (r: Option<
        (String, Vec<String>),
    >)
        ensures
            extract_json(response@) is Err ==> r is None,
            extract_json(response@) is Ok ==> r == decoded.rejection,
    {
        match GeminiCLI::extract_json_from_response(response) {
            Err(_) => None,
            Ok(_) => decoded.rejection,
        }
    }

    /// List available Gemini models. The client offers no listing command,
    /// so these are the models known to it, `gemini-2.5-flash` (the
    /// preferred one) first.
    pub fn list_models() -> (r: Result<Vec<String>, OrchestratorError>)
        ensures
            r matches Ok(v) && v@.len() == known_models().len() && forall|i: int|
                0 <= i < v@.len() ==> #[trigger] v@[i]@ == known_models()[i],
    {
        let v = vec![
            "gemini-2.5-flash".to_owned(),
            "gemini-2.5-pro".to_owned(),
            "gemini-1.5-flash".to_owned(),
            "gemini-1.5-pro".to_owned(),
            "gemini-1.0-pro".to_owned(),
        ];
        Ok(v)
    }

    /// Whether a failed query is worth another attempt, judged by what the
    /// client printed on its error stream.
    pub fn is_retryable_error(stderr: &str) -> (r: bool)
        ensures
            r == is_retryable_output(stderr@),
    {
        str_contains(stderr, "INTERNAL") || str_contains(stderr, "500") || str_contains(
            stderr,
            "timeout",
        ) || str_contains(stderr, "rate limit") || str_contains(stderr, "temporarily unavailable")
    }

    /// What to do after attempt `attempt` (counted from 1) of `max_retries`
    /// failed: give up when the error is not retryable or the attempts are
    /// used up, else wait `2^(attempt-1)` seconds (1s, 2s, 4s, ...) and try
    /// again.
    pub fn retry_decision(attempt: u32, max_retries: u32, stderr: &str) -> (r: RetryDecision)
        requires
            1 <= attempt <= max_retries,
            attempt <= 64,
        ensures
            r == retry_decision_spec(attempt, max_retries, stderr@),
            !is_retryable_output(stderr@) || attempt == max_retries ==> r == RetryDecision::GiveUp,
            is_retryable_output(stderr@) && attempt < max_retries ==> (r matches RetryDecision::RetryAfter(
                d,
            ) && d == pow2((attempt - 1) as nat)),
    {
        if !GeminiCLI::is_retryable_error(stderr) || attempt == max_retries {
            return RetryDecision::GiveUp;
        }
        let mut delay: u64 = 1;
        let mut k: u32 = 1;
        while k < attempt
            invariant
                1 <= k <= attempt <= 64,
                delay == pow2((k - 1) as nat),
            decreases attempt - k,
        {
            proof {
                lemma_pow2_bound((k - 1) as nat);
            }
            delay = delay * 2;
            k = k + 1;
        }
        RetryDecision::RetryAfter(delay)
    }
    /// The arguments of a session query: the model (the preferred one when
    /// none is given), then the prompt.
    pub fn session_query_args(prompt: &str, model: Option<&str>) -> (r: Vec<String>)
        ensures
            texts(r@) == seq![
                "--model"@,
                match model {
                    Some(m) => m@,
                    None => "gemini-2.5-flash"@,
                },
                "-p"@,
                prompt@,
            ],
    {
        let m = match model {
            Some(m) => m,
            None => "gemini-2.5-flash",
        };
        let v = vec!["--model".to_owned(), m.to_owned(), "-p".to_owned(), prompt.to_owned()];
        assert(texts(v@) =~= seq!["--model"@, m@, "-p"@, prompt@]);
        v
    }

    /// The arguments of a query that continues a session: the model only when
    /// one is given, then the prompt.
    pub fn continue_session_args(prompt: &str, model: Option<&str>) -> (r: Vec<String>)
        ensures
            texts(r@) == match model {
                Some(m) => seq!["--model"@, m@, "-p"@, prompt@],
                None => seq!["-p"@, prompt@],
            },
    {
        match model {
            Some(m) => {
                let v = vec!["--model".to_owned(), m.to_owned(), "-p".to_owned(), prompt.to_owned()];
                assert(texts(v@) =~= seq!["--model"@, m@, "-p"@, prompt@]);
                v
            },
            None => {
                let v = vec!["-p".to_owned(), prompt.to_owned()];
                assert(texts(v@) =~= seq!["-p"@, prompt@]);
                v
            },
        }
    }

    /// The arguments of one attempt of a query with retries.
    pub fn generate_args(prompt: &str, model: &str) -> (r: Vec<String>)
        ensures
            texts(r@) == seq!["gen"@, "-m"@, model@, "-p"@, prompt@],
    {
        let v = vec![
            "gen".to_owned(),
            "-m".to_owned(),
            model.to_owned(),
            "-p".to_owned(),
            prompt.to_owned(),
        ];
        assert(texts(v@) =~= seq!["gen"@, "-m"@, model@, "-p"@, prompt@]);
        v
    }

    /// The arguments of a query that asks for a JSON answer.
    pub fn json_query_args(prompt: &str) -> (r: Vec<String>)
        ensures
            texts(r@) == seq!["--model"@, "gemini-2.5-flash"@, "--format"@, "json"@, prompt@],
    {
        let v = vec![
            "--model".to_owned(),
            "gemini-2.5-flash".to_owned(),
            "--format".to_owned(),
            "json".to_owned(),
            prompt.to_owned(),
        ];
        assert(texts(v@) =~= seq!["--model"@, "gemini-2.5-flash"@, "--format"@, "json"@, prompt@]);
        v
    }

    /// The error with which a failed run of the client is reported.
    pub fn cli_failure(stderr: &str, stdout: &str) -> (r: OrchestratorError)
        ensures
            r matches OrchestratorError::Internal { message } && message@ == "Gemini CLI failed: stderr: "@
                + stderr@ + ", stdout: "@ + stdout@,
    {
        let mut m = "Gemini CLI failed: stderr: ".to_owned();
        m.append(stderr);
        m.append(", stdout: ");
        m.append(stdout);
        OrchestratorError::internal(m)
    }

    /// The arguments of a request for a model's description.
    pub fn model_info_args(model: &str) -> (r: Vec<String>)
        ensures
            texts(r@) == seq!["--model-info"@, model@, "--format"@, "json"@],
    {
        let v = vec!["--model-info".to_owned(), model.to_owned(), "--format".to_owned(), "json".to_owned()];
        assert(texts(v@) =~= seq!["--model-info"@, model@, "--format"@, "json"@]);
        v
    }

    /// The error with which a failed run of the client that asked for JSON is
    /// reported.
    pub fn cli_stderr_failure(stderr: &str) -> (r: OrchestratorError)
        ensures
            r matches OrchestratorError::Internal { message } && message@ == "Gemini CLI failed: "@
                + stderr@,
    {
        let mut m = "Gemini CLI failed: ".to_owned();
        m.append(stderr);
        OrchestratorError::internal(m)
    }

    /// The prompt with which a connection test asks for a fixed reply.
    pub fn connection_test_prompt() -> (r: &'static str)
        ensures
            r@ == "Respond with exactly: 'Gemini CLI is working'"@,
    {
        "Respond with exactly: 'Gemini CLI is working'"
    }

    /// Judges the reply to a connection test: it must contain the requested
    /// sentence.
    pub fn check_connection_reply(response: &str) -> (r: Result<(), OrchestratorError>)
        ensures
            contains(trim(response@), "Gemini CLI is working"@) ==> r is Ok,
            !contains(trim(response@), "Gemini CLI is working"@) ==> (r matches Err(
                OrchestratorError::Internal { message },
            ) && message@ == "Unexpected response from Gemini CLI: "@ + response@),
    {
        if str_contains(trim_str(response), "Gemini CLI is working") {
            Ok(())
        } else {
            let mut m = "Unexpected response from Gemini CLI: ".to_owned();
            m.append(response);
            Err(OrchestratorError::internal(m))
        }
    }

    /// Extract JSON from Gemini response (handles markdown wrapping)
    pub fn extract_json_from_response(response: &str) -> (r: Result<String, OrchestratorError>)
        ensures
            match extract_json(response@) {
                Ok(j) => r matches Ok(s) && s@ == j,
                Err(m) => r matches Err(OrchestratorError::Internal { message }) && message@ == m,
            },
    {
        let t = trim_str(response);
        let v = chars_of(t);
        if str_starts_with(t, "```json") {
            let json_str = markdown_block(t);
            if trim_str(json_str.as_str()).is_empty() {
                return Err(OrchestratorError::internal("No JSON found in markdown block".to_owned()));
            }
            return Ok(json_str);
        }
        if str_starts_with(t, "[") || str_starts_with(t, "{") {
            return Ok(t.to_owned());
        }
        match locate_json_start(&v) {
            None => Err(OrchestratorError::internal("No JSON found in response".to_owned())),
            Some((k, is_array)) => match scan_json(&v, k, is_array) {
                None => Err(
                    OrchestratorError::internal("No matching closing bracket/brace found".to_owned()),
                ),
                Some(i) => {
                    proof {
                        lemma_json_start_before_end(v@);
                    }
                    Ok(t.substring_char(k, i + 1).to_owned())
                },
            },
        }
    }
}

/// Powers of two grow with the exponent.
proof fn lemma_pow2_monotone(a: nat, b: nat)
    requires
        a <= b,
    ensures
        1 <= pow2(a) <= pow2(b),
    decreases b,
{
    if b > a {
        lemma_pow2_monotone(a, (b - 1) as nat);
    } else if a > 0 {
        lemma_pow2_monotone((a - 1) as nat, (a - 1) as nat);
    }
}

/// Powers of two below `2^63` fit in a `u64` when doubled.
proof fn lemma_pow2_bound(e: nat)
    requires
        e < 63,
    ensures
        pow2(e) * 2 <= u64::MAX,
        pow2(e) >= 1,
{
    lemma_pow2_monotone(e, 62);
    assert(pow2(8) == 0x100) by {
        reveal_with_fuel(pow2, 9);
    }
    assert(pow2(16) == 0x10000) by {
        reveal_with_fuel(pow2, 9);
    }
    assert(pow2(24) == 0x1000000) by {
        reveal_with_fuel(pow2, 9);
    }
    assert(pow2(32) == 0x100000000) by {
        reveal_with_fuel(pow2, 9);
    }
    assert(pow2(40) == 0x10000000000) by {
        reveal_with_fuel(pow2, 9);
    }
    assert(pow2(48) == 0x1000000000000) by {
        reveal_with_fuel(pow2, 9);
    }
    assert(pow2(56) == 0x100000000000000) by {
        reveal_with_fuel(pow2, 9);
    }
    assert(pow2(62) == 0x4000000000000000) by {
        reveal_with_fuel(pow2, 7);
    }
}

/// Whatever decoding a document gave, reading it never gives an agent's
/// rejection.
pub proof fn lemma_decoded_response_is_never_a_rejection(
    json: Seq<char>,
    d: DecodedJson,
    r: LLMResponse,
)
    requires
        is_decoded_response(json, d, r),
    ensures
        !is_rejection(r),
{
}

/// A bracket scan ends no earlier than it starts.
proof fn lemma_bracket_scan_after_start(s: Seq<char>, i: int, depth: int, open: char, close: char)
    ensures
        bracket_scan(s, i, depth, open, close) matches Some(j) ==> i <= j < s.len(),
    decreases s.len() - i,
{
    if 0 <= i < s.len() {
        if s[i] == open {
            lemma_bracket_scan_after_start(s, i + 1, depth + 1, open, close);
        } else if s[i] == close {
            lemma_bracket_scan_after_start(s, i + 1, depth - 1, open, close);
        } else {
            lemma_bracket_scan_after_start(s, i + 1, depth, open, close);
        }
    }
}

/// The embedded JSON runs forward: its opening character comes no later
/// than its closing one, which lies within the text.
proof fn lemma_json_start_before_end(t: Seq<char>)
    requires
        json_start(t) is Some,
        json_end(t) is Some,
    ensures
        ({
            let (k, a) = json_start(t)->0;
            0 <= k <= json_end(t)->0 < t.len()
        }),
{
    let (k, a) = json_start(t)->0;
    lemma_find_char_in_range(t, '[', 0);
    lemma_find_char_in_range(t, '{', 0);
    if a {
        lemma_bracket_scan_after_start(t, k, 0, '[', ']');
    } else {
        lemma_bracket_scan_after_start(t, k, 0, '{', '}');
    }
}

/// A character search ends within the text.
proof fn lemma_find_char_in_range(s: Seq<char>, ch: char, i: int)
    ensures
        find_char_from(s, ch, i) matches Some(k) ==> i <= k < s.len(),
    decreases s.len() - i,
{
    if 0 <= i < s.len() && s[i] != ch {
        lemma_find_char_in_range(s, ch, i + 1);
    }
}

/// The retry loop from attempt `a` on.
proof fn lemma_retry_run_from(a: u32, max_retries: u32, outcomes: Seq<Option<Seq<char>>>)
    requires
        1 <= a <= max_retries <= 64,
        outcomes.len() >= max_retries,
    ensures
        ({
            let r = retry_run(a, max_retries, outcomes);
            &&& a + r.0.len() <= max_retries
            &&& forall|j: int| 0 <= j < r.0.len() ==> #[trigger] r.0[j] == pow2((a - 1 + j) as nat)
                && is_retryable_failure(outcomes[a - 1 + j])
            &&& r.1 ==> outcomes[a - 1 + r.0.len()] is None
            &&& !r.1 ==> outcomes[a - 1 + r.0.len()] is Some && (!is_retryable_failure(
                outcomes[a - 1 + r.0.len()],
            ) || a + r.0.len() == max_retries)
        }),
    decreases max_retries - a,
{
    let r = retry_run(a, max_retries, outcomes);
    match outcomes[a - 1] {
        None => {
            assert(r == (Seq::<u64>::empty(), true));
        },
        Some(e) => {
            if is_retryable_output(e) && a < max_retries {
                lemma_pow2_bound((a - 1) as nat);
                lemma_retry_run_from((a + 1) as u32, max_retries, outcomes);
                let rest = retry_run((a + 1) as u32, max_retries, outcomes);
                assert(retry_decision_spec(a, max_retries, e) == RetryDecision::RetryAfter(
                    pow2((a - 1) as nat) as u64,
                ));
                assert(r == (seq![pow2((a - 1) as nat) as u64] + rest.0, rest.1));
                assert(r.0.len() == rest.0.len() + 1);
                assert(a - 1 + r.0.len() == (a + 1) - 1 + rest.0.len());
                assert forall|j: int| 0 <= j < r.0.len() implies #[trigger] r.0[j] == pow2(
                    (a - 1 + j) as nat,
                ) && is_retryable_failure(outcomes[a - 1 + j]) by {
                    if j > 0 {
                        assert(r.0[j] == rest.0[j - 1]);
                        assert(a - 1 + j == (a + 1) - 1 + (j - 1));
                    }
                }
            } else {
                assert(retry_decision_spec(a, max_retries, e) == RetryDecision::GiveUp);
                assert(r == (Seq::<u64>::empty(), false));
            }
        },
    }
}

/// Retrying a query, over the outcomes of its attempts: where attempt `k`
/// (counted from 1, at most 64 of them) gives `outcomes[k - 1]`, the loop
/// driven by `retry_decision` retries only after a retryable error, waiting
/// 1, 2, 4, ... seconds before attempts 2, 3, 4, ...; it ends in success at
/// the first attempt that succeeds, and otherwise fails at the first error
/// that is not retryable or at attempt `max_retries`.
pub proof fn lemma_query_retries_only_retryable_errors(
    max_retries: u32,
    outcomes: Seq<Option<Seq<char>>>,
)
    requires
        1 <= max_retries <= 64,
        outcomes.len() >= max_retries,
    ensures
        ({
            let r = retry_run(1, max_retries, outcomes);
            &&& r.0.len() < max_retries
            &&& forall|j: int| 0 <= j < r.0.len() ==> #[trigger] r.0[j] == pow2(j as nat)
                && is_retryable_failure(outcomes[j])
            &&& r.1 ==> outcomes[r.0.len() as int] is None
            &&& !r.1 ==> outcomes[r.0.len() as int] is Some && (!is_retryable_failure(
                outcomes[r.0.len() as int],
            ) || r.0.len() + 1 == max_retries)
        }),
{
    lemma_retry_run_from(1, max_retries, outcomes);
    let r = retry_run(1, max_retries, outcomes);
    assert forall|j: int| 0 <= j < r.0.len() implies #[trigger] r.0[j] == pow2(j as nat)
        && is_retryable_failure(outcomes[j]) by {
        assert(r.0[j] == pow2((1 - 1 + j) as nat));
        assert(outcomes[1 - 1 + j] == outcomes[j]);
    }
}

/// A character search finds the character it looks for.
proof fn lemma_find_char_finds(s: Seq<char>, ch: char, i: int)
    ensures
        find_char_from(s, ch, i) matches Some(k) ==> 0 <= k < s.len() && s[k] == ch && forall|m: int|
            i <= m < k ==> s[m] != ch,
    decreases s.len() - i,
{
    if 0 <= i < s.len() && s[i] != ch {
        lemma_find_char_finds(s, ch, i + 1);
    }
}

/// Embedded JSON starts at the first bracket of the answer: for an answer
/// (trimmed) that is neither a markdown block nor bare JSON, where a `[`
/// comes before every `{`, the JSON pulled out is the balanced array that
/// opens at that `[` (or the error that no closing bracket was found);
/// where a `{` comes before every `[`, the balanced object that opens at that
/// `{`; and where neither occurs, the error that no JSON was found.
pub proof fn lemma_embedded_json_starts_at_the_first_bracket(response: Seq<char>)
    ensures
        ({
            let t = trim(response);
            let a = find_char_from(t, '[', 0);
            let c = find_char_from(t, '{', 0);
            is_embedded_json(t) ==> {
                &&& (a is Some && (c is None || a->0 < c->0)) ==> t[a->0] == '[' && match bracket_scan(
                    t,
                    a->0,
                    0,
                    '[',
                    ']',
                ) {
                    Some(e) => extract_json(response) == Ok::<Seq<char>, Seq<char>>(
                        t.subrange(a->0, e + 1),
                    ) && t[e] == ']',
                    None => extract_json(response) == Err::<Seq<char>, Seq<char>>(
                        "No matching closing bracket/brace found"@,
                    ),
                }
                &&& (c is Some && (a is None || c->0 < a->0)) ==> t[c->0] == '{' && match bracket_scan(
                    t,
                    c->0,
                    0,
                    '{',
                    '}',
                ) {
                    Some(e) => extract_json(response) == Ok::<Seq<char>, Seq<char>>(
                        t.subrange(c->0, e + 1),
                    ) && t[e] == '}',
                    None => extract_json(response) == Err::<Seq<char>, Seq<char>>(
                        "No matching closing bracket/brace found"@,
                    ),
                }
                &&& (a is None && c is None) ==> extract_json(response) == Err::<Seq<char>, Seq<char>>(
                    "No JSON found in response"@,
                )
            }
        }),
{
    let t = trim(response);
    lemma_find_char_finds(t, '[', 0);
    lemma_find_char_finds(t, '{', 0);
    let a = find_char_from(t, '[', 0);
    let c = find_char_from(t, '{', 0);
    if a is Some && c is Some {
        assert(a->0 != c->0);
    }
    if let Some(k) = a {
        lemma_bracket_scan_closes(t, k, 0, '[', ']');
    }
    if let Some(k) = c {
        lemma_bracket_scan_closes(t, k, 0, '{', '}');
    }
}

/// A bracket scan ends on a closing character.
proof fn lemma_bracket_scan_closes(s: Seq<char>, i: int, depth: int, open: char, close: char)
    ensures
        bracket_scan(s, i, depth, open, close) matches Some(j) ==> 0 <= j < s.len() && s[j] == close,
    decreases s.len() - i,
{
    if 0 <= i < s.len() {
        if s[i] == open {
            lemma_bracket_scan_closes(s, i + 1, depth + 1, open, close);
        } else if s[i] == close {
            lemma_bracket_scan_closes(s, i + 1, depth - 1, open, close);
        } else {
            lemma_bracket_scan_closes(s, i + 1, depth, open, close);
        }
    }
}

/// The errors the client prints for an internal error, a server error, a
/// time-out, a rate limit or an outage are retried: after a failed attempt
/// that is not the last one allowed, the query waits `2^(attempt-1)` seconds
/// and tries again. Any other error ends the query at once.
pub proof fn lemma_transient_errors_are_retried(attempt: u32, max_retries: u32, stderr: Seq<char>)
    requires
        1 <= attempt < max_retries,
        attempt <= 64,
    ensures
        (contains(stderr, "INTERNAL"@) || contains(stderr, "500"@) || contains(stderr, "timeout"@)
            || contains(stderr, "rate limit"@) || contains(stderr, "temporarily unavailable"@))
            ==> retry_decision_spec(attempt, max_retries, stderr) == RetryDecision::RetryAfter(
            pow2((attempt - 1) as nat) as u64,
        ),
        !(contains(stderr, "INTERNAL"@) || contains(stderr, "500"@) || contains(stderr, "timeout"@)
            || contains(stderr, "rate limit"@) || contains(stderr, "temporarily unavailable"@))
            ==> retry_decision_spec(attempt, max_retries, stderr) == RetryDecision::GiveUp,
{
}

} // verus!
