//! Decisions of the manager that sends prompts to AI models: which context
//! file a stack gets, the generic context text, where a prompt may go, how a
//! bare JSON array is framed before it is decoded, and the call counters.

use vstd::prelude::*;
use crate::text::opt_text;
use crate::enums::tech_stack::{TechStack, tech_stack_debug_name};
use crate::error::OrchestratorError;
use crate::mcp::gemini::{GeminiCLI, extract_json};
use crate::text::{trim, starts_with, trim_str, str_starts_with, is_ws, skip_ws_from, cut_ws_before, trim_start};

verus! {

/// Supported AI models for MCP.
#[derive(Debug, Clone, Copy, PartialEq, Eq, Structural)]
pub enum McpModel {
    Gemini,
    /// The second model, whose integration is not implemented.
    Secondary,
}

/// The name of a model as it is displayed.
pub open spec fn model_name(m: McpModel) -> Seq<char> {
    match m {
        McpModel::Gemini => "gemini"@,
        McpModel::Secondary => "secondary"@,
    }
}

impl McpModel {
    /// The model's display name: `gemini` or `secondary`.
    pub fn to_string(&self) -> (r: String)
        ensures
            r@ == model_name(*self),
    {
        match self {
            McpModel::Gemini => "gemini".to_owned(),
            McpModel::Secondary => "secondary".to_owned(),
        }
    }
}

/// Events emitted by the MCP Manager.
#[derive(Debug, Clone)]
pub enum McpEvent {
    /// Context files initialized
    ContextInitialized { project_path: String, gemini_file: String, secondary_file: String },
    /// Prompt executed successfully
    PromptExecuted { prompt_type: String, model: McpModel, execution_time_ms: u64 },
    /// Error occurred during prompt execution
    PromptError { prompt_type: String, model: McpModel, error: String },
    /// Model availability changed
    ModelAvailabilityChanged { model: McpModel, available: bool },
}

/// The session under which prompts are sent to Gemini.
pub const GEMINI_SESSION: &'static str = "mcp-session";

/// The Gemini model that prompts are sent to.
pub const GEMINI_PROMPT_MODEL: &'static str = "gemini-2.5-flash";

/// The context file written for Gemini in a project's directory.
pub const GEMINI_CONTEXT_FILE: &'static str = "GEMINI.md";

/// The context file written for the second model in a project's directory.
pub const SECONDARY_CONTEXT_FILE: &'static str = "SECONDARY.md";

/// The file under `contexts/` that holds the prepared context of a stack.
pub open spec fn context_file_name_spec(t: TechStack) -> Seq<char> {
    match t {
        TechStack::Vue => "context.vue.md"@,
        TechStack::React => "context.react.md"@,
        TechStack::Rust => "context.rust.asyncgraphql.md"@,
        TechStack::FullstackRustVue => "context.vue.md"@,
        TechStack::FullstackRustReact => "context.react.md"@,
    }
}

/// Picks the prepared context file of a stack; a full-stack project uses the
/// file of its front end.
pub fn context_file_name(tech_stack: TechStack) -> (r: &'static str)
    ensures
        r@ == context_file_name_spec(tech_stack),
{
    match tech_stack {
        TechStack::Vue => "context.vue.md",
        TechStack::React => "context.react.md",
        TechStack::Rust => "context.rust.asyncgraphql.md",
        TechStack::FullstackRustVue => "context.vue.md",
        TechStack::FullstackRustReact => "context.react.md",
    }
}

/// The generic context text before the stack's name.
pub open spec fn context_head() -> Seq<char> {
    "# Project Context\n\n## Technology Stack\n"@
}

/// The generic context text after the stack's name.
pub open spec fn context_tail() -> Seq<char> {
    r#"

## Development Guidelines

### Code Quality
- Follow language-specific best practices and conventions
- Implement comprehensive error handling
- Write clear, self-documenting code with meaningful variable names
- Add appropriate comments for complex logic
- Ensure type safety and memory safety where applicable

### Security
- Validate all user inputs and sanitize data
- Implement proper authentication and authorization
- Use parameterized queries to prevent SQL injection
- Handle secrets and sensitive data securely
- Follow OWASP security guidelines

### Performance
- Optimize algorithms and data structures
- Implement efficient caching strategies
- Minimize database queries and optimize indexes
- Use connection pooling and resource management
- Consider scalability and concurrent access patterns

### Testing
- Write comprehensive unit tests for all functionality
- Include integration tests for API endpoints and database operations
- Add end-to-end tests for critical user workflows
- Test error conditions and edge cases thoroughly
- Maintain high test coverage standards

### Documentation
- Document all public APIs and interfaces
- Include usage examples and code samples
- Maintain up-to-date README and setup instructions
- Document deployment and configuration procedures
- Keep architectural decisions and design rationale

### Development Workflow
- Use version control with meaningful commit messages
- Follow branching strategies and code review processes
- Implement CI/CD pipelines with automated testing
- Use linting and code formatting tools
- Monitor application performance and errors

## Project Structure
Follow the established project structure and naming conventions.
Maintain separation of concerns and modular architecture.
"#@
}

/// The generic context of a stack: guidelines shared by every stack, under a
/// heading that names it.
pub open spec fn generic_context(t: TechStack) -> Seq<char> {
    context_head() + tech_stack_debug_name(t) + context_tail()
}

/// Generates the generic context content that stands in for a missing
/// prepared context file.
pub fn generic_context_content(tech_stack: TechStack) -> (r: String)
    ensures
        r@ == generic_context(tech_stack),
{
    let mut s = "# Project Context\n\n## Technology Stack\n".to_owned();
    s.append(tech_stack.debug_name());
    s.append(r#"

## Development Guidelines

### Code Quality
- Follow language-specific best practices and conventions
- Implement comprehensive error handling
- Write clear, self-documenting code with meaningful variable names
- Add appropriate comments for complex logic
- Ensure type safety and memory safety where applicable

### Security
- Validate all user inputs and sanitize data
- Implement proper authentication and authorization
- Use parameterized queries to prevent SQL injection
- Handle secrets and sensitive data securely
- Follow OWASP security guidelines

### Performance
- Optimize algorithms and data structures
- Implement efficient caching strategies
- Minimize database queries and optimize indexes
- Use connection pooling and resource management
- Consider scalability and concurrent access patterns

### Testing
- Write comprehensive unit tests for all functionality
- Include integration tests for API endpoints and database operations
- Add end-to-end tests for critical user workflows
- Test error conditions and edge cases thoroughly
- Maintain high test coverage standards

### Documentation
- Document all public APIs and interfaces
- Include usage examples and code samples
- Maintain up-to-date README and setup instructions
- Document deployment and configuration procedures
- Keep architectural decisions and design rationale

### Development Workflow
- Use version control with meaningful commit messages
- Follow branching strategies and code review processes
- Implement CI/CD pipelines with automated testing
- Use linting and code formatting tools
- Monitor application performance and errors

## Project Structure
Follow the established project structure and naming conventions.
Maintain separation of concerns and modular architecture.
"#);
    s
}

/// Where a prompt for `model` goes: the project directory Gemini runs in, or
/// the reason it cannot be sent.
pub open spec fn prompt_target_spec(
    model: McpModel,
    gemini_available: bool,
    project_path: Option<Seq<char>>,
) -> Result<Seq<char>, Seq<char>> {
    match model {
        McpModel::Gemini => if !gemini_available {
            Err("Gemini CLI not available"@)
        } else {
            match project_path {
                Some(p) => Ok(p),
                None => Err("No project path set for MCP Manager"@),
            }
        },
        McpModel::Secondary => Err("Secondary model integration not yet implemented"@),
    }
}

/// Decides where a prompt for `model` may be sent: Gemini runs in the project
/// directory once it is known to be available; the second model is not
/// integrated.
pub fn prompt_target(model: McpModel, gemini_available: bool, project_path: &Option<String>) -> (r:
    Result<String, OrchestratorError>)
    ensures
        match prompt_target_spec(model, gemini_available, opt_text(*project_path)) {
            Ok(p) => r matches Ok(d) && d@ == p,
            Err(m) => r matches Err(OrchestratorError::Internal { message }) && message@ == m,
        },
{
    match model {
        McpModel::Gemini => {
            if !gemini_available {
                return Err(OrchestratorError::internal("Gemini CLI not available".to_owned()));
            }
            match project_path {
                Some(p) => Ok(p.clone()),
                None => Err(
                    OrchestratorError::internal("No project path set for MCP Manager".to_owned()),
                ),
            }
        },
        McpModel::Secondary => Err(
            OrchestratorError::internal("Secondary model integration not yet implemented".to_owned()),
        ),
    }
}

/// `json` framed as the value of field `key` of an object when, past leading
/// whitespace, it is an array; otherwise `json` itself.
pub open spec fn frame_array(json: Seq<char>, key: Seq<char>) -> Seq<char> {
    if starts_with(trim(json), seq!['[']) {
        "{\""@ + key + "\": "@ + json + "}"@
    } else {
        json
    }
}

/// Frames a bare JSON array of tasks as `{"tasks": [...]}`, the shape an idea
/// breakdown is decoded from; other text is left as it is.
pub fn frame_tasks_array(json: &str) -> (r: String)
    ensures
        r@ == frame_array(json@, "tasks"@),
{
    frame_array_under(json, "tasks")
}

/// Frames a bare JSON array of actions as `{"actions": [...]}`, the shape a
/// feature development answer is decoded from; other text is left as it is.
pub fn frame_actions_array(json: &str) -> (r: String)
    ensures
        r@ == frame_array(json@, "actions"@),
{
    frame_array_under(json, "actions")
}

fn frame_array_under(json: &str, key: &str) -> (r: String)
    ensures
        r@ == frame_array(json@, key@),
{
    let t = trim_str(json);
    let opens = str_starts_with(t, "[");
    proof {
        reveal_strlit("[");
        assert("["@ =~= seq!['[']);
    }
    if opens {
        let mut s = "{\"".to_owned();
        s.append(key);
        s.append("\": ");
        s.append(json);
        s.append("}");
        s
    } else {
        json.to_owned()
    }
}

/// The shape a prompt's answer is decoded as, where the framing of a bare
/// array depends on it.
#[derive(Debug, Clone, Copy, PartialEq, Eq, Structural)]
pub enum ExpectedAnswer {
    /// An idea breakdown: an object holding `tasks`.
    IdeaBreakdown,
    /// A feature development answer: an object holding `actions`.
    FeatureDevelopment,
    /// Any other payload, decoded as it stands.
    Other,
}

/// The text that is decoded for an answer expected in a shape: its JSON
/// document, with a bare array framed for the shapes that hold one; or the
/// error of a document that cannot be found.
pub open spec fn answer_json_spec(expected: ExpectedAnswer, response: Seq<char>) -> Result<
    Seq<char>,
    Seq<char>,
> {
    match extract_json(response) {
        Err(m) => Err(m),
        Ok(j) => Ok(
            match expected {
                ExpectedAnswer::IdeaBreakdown => frame_array(j, "tasks"@),
                ExpectedAnswer::FeatureDevelopment => frame_array(j, "actions"@),
                ExpectedAnswer::Other => j,
            },
        ),
    }
}

/// Prepares a model's answer for decoding in the expected shape: pulls out
/// its JSON document and frames a bare array of tasks or actions.
pub fn answer_json(expected: ExpectedAnswer, response: &str) -> (r: Result<String, OrchestratorError>)
    ensures
        match answer_json_spec(expected, response@) {
            Ok(j) => r matches Ok(x) && x@ == j,
            Err(m) => r matches Err(OrchestratorError::Internal { message }) && message@ == m,
        },
{
    match GeminiCLI::extract_json_from_response(response) {
        Err(e) => Err(e),
        Ok(j) => match expected {
            ExpectedAnswer::IdeaBreakdown => Ok(frame_tasks_array(j.as_str())),
            ExpectedAnswer::FeatureDevelopment => Ok(frame_actions_array(j.as_str())),
            ExpectedAnswer::Other => Ok(j),
        },
    }
}

/// Whether `serde_json::from_str::<serde_json::Value>` reads `text` as a
/// JSON document.
pub uninterp spec fn json_value_parses(text: Seq<char>) -> bool;

/// `serde_json::from_str::<serde_json::Value>(text)`, keeping only whether
/// it parsed and, where it did not, its error.
#[verifier::external_body]
fn check_json_value(text: &str) -> (r: Result<(), serde_json::Error>)
    ensures
        r is Ok <==> json_value_parses(text@),
{
    serde_json::from_str::<serde_json::Value>(text).map(|_| ())
}

/// The JSON document of an error recovery answer, checked to be JSON: the
/// error of pulling it out of the answer, or a JSON parsing error about the
/// "AI model response" where it does not parse.
pub fn error_recovery_json(response: &str) -> (r: Result<String, OrchestratorError>)
    ensures
        match answer_json_spec(ExpectedAnswer::Other, response@) {
            Err(m) => r matches Err(OrchestratorError::Internal { message }) && message@ == m,
            Ok(j) => if json_value_parses(j) {
                r matches Ok(x) && x@ == j
            } else {
                r matches Err(OrchestratorError::JsonParsing { context, .. }) && context@
                    == "AI model response"@
            },
        },
{
    let json = answer_json(ExpectedAnswer::Other, response)?;
    match check_json_value(json.as_str()) {
        Ok(()) => Ok(json),
        Err(e) => Err(OrchestratorError::json_parsing("AI model response".to_owned(), e)),
    }
}

/// Trailing white space is cut no further than a leading character that is
/// not white space.
proof fn lemma_cut_keeps_first(s: Seq<char>, j: int)
    requires
        1 <= j <= s.len(),
        !is_ws(s[0]),
    ensures
        1 <= cut_ws_before(s, j) <= j,
    decreases j,
{
    if j > 1 && is_ws(s[j - 1]) {
        lemma_cut_keeps_first(s, j - 1);
    }
}

/// Framing is idempotent: a framed document is an object, so framing it again
/// leaves it as it is.
pub proof fn lemma_frame_array_idempotent(json: Seq<char>, key: Seq<char>)
    ensures
        frame_array(frame_array(json, key), key) == frame_array(json, key),
{
    let f = frame_array(json, key);
    if starts_with(trim(json), seq!['[']) {
        reveal_strlit("{\"");
        assert(f[0] == '{');
        assert(!is_ws(f[0]));
        assert(skip_ws_from(f, 0) == 0);
        assert(trim_start(f) =~= f);
        lemma_cut_keeps_first(f, f.len() as int);
        assert(trim(f)[0] == '{');
        if starts_with(trim(f), seq!['[']) {
            assert(trim(f).take(1)[0] == '[');
        }
    }
}

/// The manager's call counters.
#[derive(Debug, Clone, Copy, PartialEq, Eq, Structural)]
pub struct McpCounters {
    pub total_prompts_executed: u64,
    pub successful_executions: u64,
    pub failed_executions: u64,
    pub gemini_calls: u64,
    pub secondary_calls: u64,
    pub context_files_created: u64,
}

impl McpCounters {
    /// All counters at zero.
    pub fn new() -> (r: Self)
        ensures
            r == McpCounters::zero(),
    {
        McpCounters {
            total_prompts_executed: 0,
            successful_executions: 0,
            failed_executions: 0,
            gemini_calls: 0,
            secondary_calls: 0,
            context_files_created: 0,
        }
    }

    /// All counters at zero.
    pub open spec fn zero() -> McpCounters {
        McpCounters {
            total_prompts_executed: 0,
            successful_executions: 0,
            failed_executions: 0,
            gemini_calls: 0,
            secondary_calls: 0,
            context_files_created: 0,
        }
    }

    /// Each prompt is counted once by its outcome and once by its model.
    pub open spec fn is_consistent(self) -> bool {
        &&& self.total_prompts_executed == self.successful_executions + self.failed_executions
        &&& self.total_prompts_executed == self.gemini_calls + self.secondary_calls
    }

    /// The counters after one more prompt to `model` that succeeded or not.
    pub open spec fn with_prompt(self, model: McpModel, success: bool) -> McpCounters {
        McpCounters {
            total_prompts_executed: (self.total_prompts_executed + 1) as u64,
            successful_executions: if success {
                (self.successful_executions + 1) as u64
            } else {
                self.successful_executions
            },
            failed_executions: if success {
                self.failed_executions
            } else {
                (self.failed_executions + 1) as u64
            },
            gemini_calls: if model == McpModel::Gemini {
                (self.gemini_calls + 1) as u64
            } else {
                self.gemini_calls
            },
            secondary_calls: if model == McpModel::Secondary {
                (self.secondary_calls + 1) as u64
            } else {
                self.secondary_calls
            },
            context_files_created: self.context_files_created,
        }
    }

    /// Room left for one more prompt.
    pub open spec fn can_record(self) -> bool {
        &&& self.total_prompts_executed < u64::MAX
        &&& self.successful_executions < u64::MAX
        &&& self.failed_executions < u64::MAX
        &&& self.gemini_calls < u64::MAX
        &&& self.secondary_calls < u64::MAX
    }

    /// Counts one prompt sent to `model`, by outcome and by model.
    pub fn record_prompt(&mut self, model: McpModel, success: bool)
        requires
            old(self).can_record(),
        ensures
            *final(self) == old(self).with_prompt(model, success),
            final(self).total_prompts_executed == old(self).total_prompts_executed + 1,
            success ==> final(self).successful_executions == old(self).successful_executions + 1
                && final(self).failed_executions == old(self).failed_executions,
            !success ==> final(self).failed_executions == old(self).failed_executions + 1
                && final(self).successful_executions == old(self).successful_executions,
    {
        self.total_prompts_executed += 1;
        if success {
            self.successful_executions += 1;
        } else {
            self.failed_executions += 1;
        }
        match model {
            McpModel::Gemini => self.gemini_calls += 1,
            McpModel::Secondary => self.secondary_calls += 1,
        }
    }

    /// A prompt counts once, and by its outcome: recording one that
    /// succeeded adds one to the prompts and to the successes and leaves the
    /// failures as they were; one that failed adds one to the failures and
    /// leaves the successes. Either way the prompt is counted for its model
    /// alone, and successes and failures still add up to the prompts.
    pub proof fn lemma_record_prompt_counts_by_outcome(self, model: McpModel, success: bool)
        requires
            self.can_record(),
        ensures
            ({
                let n = self.with_prompt(model, success);
                &&& n.total_prompts_executed == self.total_prompts_executed + 1
                &&& success ==> n.successful_executions == self.successful_executions + 1
                    && n.failed_executions == self.failed_executions
                &&& !success ==> n.failed_executions == self.failed_executions + 1
                    && n.successful_executions == self.successful_executions
                &&& n.successful_executions + n.failed_executions == self.successful_executions
                    + self.failed_executions + 1
                &&& n.gemini_calls + n.secondary_calls == self.gemini_calls + self.secondary_calls + 1
                &&& model == McpModel::Gemini ==> n.gemini_calls == self.gemini_calls + 1
                &&& model == McpModel::Secondary ==> n.secondary_calls == self.secondary_calls + 1
                &&& n.context_files_created == self.context_files_created
            }),
    {
    }

    /// Counts the two context files written for a project.
    pub fn record_context_files(&mut self)
        requires
            old(self).context_files_created + 2 <= u64::MAX,
        ensures
            *final(self) == (McpCounters {
                context_files_created: (old(self).context_files_created + 2) as u64,
                ..*old(self)
            }),
    {
        self.context_files_created += 2;
    }
}

/// Counting a prompt keeps each prompt counted once by outcome and once by
/// model, and adds exactly one prompt.
pub proof fn lemma_counters_stay_consistent(c: McpCounters, model: McpModel, success: bool)
    requires
        c.is_consistent(),
        c.can_record(),
    ensures
        c.with_prompt(model, success).is_consistent(),
        c.with_prompt(model, success).total_prompts_executed == c.total_prompts_executed + 1,
{
}

/// The availability events due after a check that found Gemini available or
/// not: one for each model whose known availability changes (the second model
/// is never available).
pub open spec fn availability_events_spec(
    gemini_was: bool,
    secondary_was: bool,
    gemini_now: bool,
) -> Seq<(McpModel, bool)> {
    let g = if gemini_was != gemini_now {
        seq![(McpModel::Gemini, gemini_now)]
    } else {
        Seq::empty()
    };
    if secondary_was {
        g.push((McpModel::Secondary, false))
    } else {
        g
    }
}

/// Decides which availability changes a model check announces, given what was
/// known before and whether Gemini answered now.
pub fn availability_changes(gemini_was: bool, secondary_was: bool, gemini_now: bool) -> (r: Vec<
    (McpModel, bool),
>)
    ensures
        r@ == availability_events_spec(gemini_was, secondary_was, gemini_now),
{
    let mut v: Vec<(McpModel, bool)> = Vec::new();
    if gemini_was != gemini_now {
        v.push((McpModel::Gemini, gemini_now));
    }
    if secondary_was {
        v.push((McpModel::Secondary, false));
    }
    proof {
        assert(v@ =~= availability_events_spec(gemini_was, secondary_was, gemini_now));
    }
    v
}

} // verus!
