//! The results of the pipeline runs: what a stage and a pipeline report,
//! the inputs of the idea breakdown stage, and the markdown report of a run.

use vstd::prelude::*;
use super::{AppStatus, E2ETestRunner};
use crate::text_fmt::{dec, push_dec, push_dec_wide};

verus! {

/// `serde_json::Value`, carried through by the library.
#[verifier::external_type_specification]
#[verifier::external_body]
pub struct ExJsonValue(serde_json::Value);

/// Pipeline Stage Results
#[derive(Debug, Clone)]
pub struct StageResult {
    pub stage_name: String,
    pub success: bool,
    pub actions_executed: Vec<serde_json::Value>,
    pub errors: Vec<String>,
    pub duration_ms: u128,
    pub retry_count: usize,
}

/// Complete Pipeline Result
#[derive(Debug, Clone)]
pub struct PipelineResult {
    /// "frontend" or "backend"
    pub pipeline_type: String,
    pub app_name: String,
    pub stages: Vec<StageResult>,
    pub overall_success: bool,
    pub total_duration_ms: u128,
    pub final_app_status: AppStatus,
}

/// `s` in upper case, as `str::to_uppercase` gives it.
pub uninterp spec fn uppercase_of(s: Seq<char>) -> Seq<char>;

/// `str::to_uppercase`: the text with each character mapped to its Unicode
/// upper case; the result is a function of the text alone.
#[verifier::external_body]
fn to_uppercase(s: &str) -> (r: String)
    ensures
        r@ == uppercase_of(s@),
{
    s.to_uppercase()
}

/// Whether every stage succeeded.
pub open spec fn all_succeeded(stages: Seq<StageResult>) -> bool {
    forall|k: int| 0 <= k < stages.len() ==> #[trigger] stages[k].success
}

/// The inputs of the idea breakdown stage for an application type: the idea,
/// the context and the stack; an unknown type is refused.
pub open spec fn idea_inputs(app_type: Seq<char>) -> Result<(Seq<char>, Seq<char>, Seq<char>), Seq<char>> {
    if app_type == "frontend"@ {
        Ok((
            "Create a Vue.js login page with form validation, responsive design, and authentication integration. Include email/password fields, remember me checkbox, forgot password link, and proper error handling."@,
            "Building a frontend application for E2E testing"@,
            "Vue 3, TypeScript, Vite, Pinia, Vue Router, Tailwind CSS"@,
        ))
    } else if app_type == "backend"@ {
        Ok((
            "Create a GraphQL server with user authentication (login/signup) using Node.js, Express, Apollo Server, and JWT tokens. Include user registration, login, password hashing, and protected resolvers."@,
            "Building a backend application for E2E testing"@,
            "Node.js, Express, Apollo Server, GraphQL, JWT, bcrypt, MongoDB"@,
        ))
    } else {
        Err("Invalid app type"@)
    }
}

/// A pass or fail mark with its word.
pub open spec fn verdict(ok: bool) -> Seq<char> {
    if ok {
        "✅ PASS"@
    } else {
        "❌ FAIL"@
    }
}

/// A bare pass or fail mark.
pub open spec fn mark(ok: bool) -> Seq<char> {
    if ok {
        "✅"@
    } else {
        "❌"@
    }
}

/// The error lines of a stage.
pub open spec fn error_lines(errors: Seq<String>) -> Seq<char>
    decreases errors.len(),
{
    if errors.len() == 0 {
        Seq::empty()
    } else {
        error_lines(errors.drop_last()) + "  - "@ + errors.last()@ + "\n"@
    }
}

/// The report section of one stage.
pub open spec fn stage_section(s: StageResult) -> Seq<char> {
    "#### "@ + s.stage_name@ + "\n"@ + "- **Status**: "@ + verdict(s.success) + "\n"@
        + "- **Duration**: "@ + dec(s.duration_ms as nat) + "ms\n"@ + "- **Retry Count**: "@ + dec(
        s.retry_count as nat,
    ) + "\n"@ + "- **Actions Executed**: "@ + dec(s.actions_executed@.len()) + "\n"@ + (if s.errors@.len()
        > 0 {
        "- **Errors**:\n"@ + error_lines(s.errors@)
    } else {
        Seq::empty()
    }) + "\n"@
}

/// The report sections of the stages `stages`.
pub open spec fn stage_sections(stages: Seq<StageResult>) -> Seq<char>
    decreases stages.len(),
{
    if stages.len() == 0 {
        Seq::empty()
    } else {
        stage_sections(stages.drop_last()) + stage_section(stages.last())
    }
}

/// One line of an application's final status.
pub open spec fn status_line(label: Seq<char>, ok: bool) -> Seq<char> {
    label + mark(ok) + "\n"@
}

/// The report lines of an application's final status.
pub open spec fn status_lines(st: AppStatus) -> Seq<char> {
    status_line("- **Builds Successfully**: "@, st.builds_successfully) + status_line(
        "- **Tests Pass**: "@,
        st.tests_pass,
    ) + status_line("- **Deployment Ready**: "@, st.deployment_ready) + status_line(
        "- **Functionality Works**: "@,
        st.functionality_works,
    ) + status_line("- **Performance Acceptable**: "@, st.performance_acceptable)
}

/// The report section of one pipeline.
pub open spec fn pipeline_section(p: PipelineResult) -> Seq<char> {
    "## "@ + uppercase_of(p.pipeline_type@) + " Pipeline\n\n"@ + "**Application**: "@ + p.app_name@
        + "\n"@ + "**Overall Success**: "@ + verdict(p.overall_success) + "\n"@
        + "**Total Duration**: "@ + dec(p.total_duration_ms as nat) + "ms\n\n"@ + "### Stages\n\n"@
        + stage_sections(p.stages@) + "### Final Application Status\n\n"@ + status_lines(
        p.final_app_status,
    ) + "\n"@
}

/// The report sections of the pipelines `results`.
pub open spec fn pipeline_sections(results: Seq<PipelineResult>) -> Seq<char>
    decreases results.len(),
{
    if results.len() == 0 {
        Seq::empty()
    } else {
        pipeline_sections(results.drop_last()) + pipeline_section(results.last())
    }
}

/// The markdown report of a run, generated at the time `generated`.
pub open spec fn test_report_spec(results: Seq<PipelineResult>, generated: Seq<char>) -> Seq<char> {
    "# E2E Pipeline Test Report\n\n"@ + "Generated: "@ + generated + "\n\n"@ + pipeline_sections(
        results,
    )
}

fn push_verdict(s: &mut String, ok: bool)
    ensures
        final(s)@ == old(s)@ + verdict(ok),
{
    if ok {
        s.append("✅ PASS");
    } else {
        s.append("❌ FAIL");
    }
}

fn push_mark_line(s: &mut String, label: &str, ok: bool)
    ensures
        final(s)@ == old(s)@ + status_line(label@, ok),
{
    let ghost start = s@;
    s.append(label);
    if ok {
        s.append("✅");
    } else {
        s.append("❌");
    }
    s.append("\n");
    assert(s@ =~= start + status_line(label@, ok));
}

/// The lines of a stage's section before its errors.
pub open spec fn stage_head(s: StageResult) -> Seq<char> {
    "#### "@ + s.stage_name@ + "\n"@ + "- **Status**: "@ + verdict(s.success) + "\n"@
        + "- **Duration**: "@ + dec(s.duration_ms as nat) + "ms\n"@ + "- **Retry Count**: "@ + dec(
        s.retry_count as nat,
    ) + "\n"@ + "- **Actions Executed**: "@ + dec(s.actions_executed@.len()) + "\n"@
}

fn push_stage_head(s: &mut String, st: &StageResult)
    ensures
        final(s)@ == old(s)@ + stage_head(*st),
{
    let ghost start = s@;
    let ghost mut acc: Seq<char> = Seq::empty();
    s.append("#### ");
    proof {
        acc = acc + "#### "@;
    }
    assert(s@ =~= start + acc);
    s.append(st.stage_name.as_str());
    proof {
        acc = acc + st.stage_name@;
    }
    assert(s@ =~= start + acc);
    s.append("\n");
    proof {
        acc = acc + "\n"@;
    }
    assert(s@ =~= start + acc);
    s.append("- **Status**: ");
    proof {
        acc = acc + "- **Status**: "@;
    }
    assert(s@ =~= start + acc);
    push_verdict(s, st.success);
    proof {
        acc = acc + verdict(st.success);
    }
    assert(s@ =~= start + acc);
    s.append("\n");
    proof {
        acc = acc + "\n"@;
    }
    assert(s@ =~= start + acc);
    s.append("- **Duration**: ");
    proof {
        acc = acc + "- **Duration**: "@;
    }
    assert(s@ =~= start + acc);
    push_dec_wide(s, st.duration_ms);
    proof {
        acc = acc + dec(st.duration_ms as nat);
    }
    assert(s@ =~= start + acc);
    s.append("ms\n");
    proof {
        acc = acc + "ms\n"@;
    }
    assert(s@ =~= start + acc);
    s.append("- **Retry Count**: ");
    proof {
        acc = acc + "- **Retry Count**: "@;
    }
    assert(s@ =~= start + acc);
    push_dec_wide(s, st.retry_count as u128);
    proof {
        acc = acc + dec(st.retry_count as nat);
    }
    assert(s@ =~= start + acc);
    s.append("\n");
    proof {
        acc = acc + "\n"@;
    }
    assert(s@ =~= start + acc);
    s.append("- **Actions Executed**: ");
    proof {
        acc = acc + "- **Actions Executed**: "@;
    }
    assert(s@ =~= start + acc);
    push_dec_wide(s, st.actions_executed.len() as u128);
    proof {
        acc = acc + dec(st.actions_executed@.len());
    }
    assert(s@ =~= start + acc);
    s.append("\n");
    proof {
        acc = acc + "\n"@;
    }
    assert(s@ =~= start + acc);
}

fn push_stage(s: &mut String, st: &StageResult)
    ensures
        final(s)@ == old(s)@ + stage_section(*st),
{
    let ghost start = s@;
    push_stage_head(s, st);
    let ghost after_head = s@;
    if st.errors.len() > 0 {
        s.append("- **Errors**:\n");
        let ghost head = s@;
        let mut i: usize = 0;
        while i < st.errors.len()
            invariant
                i <= st.errors@.len(),
                s@ == head + error_lines(st.errors@.take(i as int)),
            decreases st.errors.len() - i,
        {
            assert(st.errors@.take(i + 1).drop_last() =~= st.errors@.take(i as int));
            s.append("  - ");
            s.append(st.errors[i].as_str());
            s.append("\n");
            i = i + 1;
            assert(s@ =~= head + error_lines(st.errors@.take(i as int)));
        }
        assert(st.errors@.take(st.errors@.len() as int) =~= st.errors@);
        assert(s@ =~= after_head + ("- **Errors**:\n"@ + error_lines(st.errors@)));
    } else {
        assert(s@ =~= after_head + Seq::<char>::empty());
    }
    let ghost after_errors = s@;
    s.append("\n");
    assert(stage_section(*st) =~= stage_head(*st) + (if st.errors@.len() > 0 {
        "- **Errors**:\n"@ + error_lines(st.errors@)
    } else {
        Seq::empty()
    }) + "\n"@);
    assert(s@ =~= start + stage_section(*st));
}

/// The heading lines of a pipeline's section.
pub open spec fn pipeline_head(p: PipelineResult) -> Seq<char> {
    "## "@ + uppercase_of(p.pipeline_type@) + " Pipeline\n\n"@ + "**Application**: "@ + p.app_name@
        + "\n"@ + "**Overall Success**: "@ + verdict(p.overall_success) + "\n"@
        + "**Total Duration**: "@ + dec(p.total_duration_ms as nat) + "ms\n\n"@ + "### Stages\n\n"@
}

fn push_pipeline_head(s: &mut String, p: &PipelineResult)
    ensures
        final(s)@ == old(s)@ + pipeline_head(*p),
{
    let ghost start = s@;
    let ghost mut acc: Seq<char> = Seq::empty();
    s.append("## ");
    proof {
        acc = acc + "## "@;
    }
    assert(s@ =~= start + acc);
    let up = to_uppercase(p.pipeline_type.as_str());
    s.append(up.as_str());
    proof {
        acc = acc + uppercase_of(p.pipeline_type@);
    }
    assert(s@ =~= start + acc);
    s.append(" Pipeline\n\n");
    proof {
        acc = acc + " Pipeline\n\n"@;
    }
    assert(s@ =~= start + acc);
    s.append("**Application**: ");
    proof {
        acc = acc + "**Application**: "@;
    }
    assert(s@ =~= start + acc);
    s.append(p.app_name.as_str());
    proof {
        acc = acc + p.app_name@;
    }
    assert(s@ =~= start + acc);
    s.append("\n");
    proof {
        acc = acc + "\n"@;
    }
    assert(s@ =~= start + acc);
    s.append("**Overall Success**: ");
    proof {
        acc = acc + "**Overall Success**: "@;
    }
    assert(s@ =~= start + acc);
    push_verdict(s, p.overall_success);
    proof {
        acc = acc + verdict(p.overall_success);
    }
    assert(s@ =~= start + acc);
    s.append("\n");
    proof {
        acc = acc + "\n"@;
    }
    assert(s@ =~= start + acc);
    s.append("**Total Duration**: ");
    proof {
        acc = acc + "**Total Duration**: "@;
    }
    assert(s@ =~= start + acc);
    push_dec_wide(s, p.total_duration_ms);
    proof {
        acc = acc + dec(p.total_duration_ms as nat);
    }
    assert(s@ =~= start + acc);
    s.append("ms\n\n");
    proof {
        acc = acc + "ms\n\n"@;
    }
    assert(s@ =~= start + acc);
    s.append("### Stages\n\n");
    proof {
        acc = acc + "### Stages\n\n"@;
    }
    assert(s@ =~= start + acc);
}

fn push_stages(s: &mut String, stages: &Vec<StageResult>)
    ensures
        final(s)@ == old(s)@ + stage_sections(stages@),
{
    let ghost head = s@;
    let mut i: usize = 0;
    while i < stages.len()
        invariant
            i <= stages@.len(),
            s@ == head + stage_sections(stages@.take(i as int)),
        decreases stages.len() - i,
    {
        assert(stages@.take(i + 1).drop_last() =~= stages@.take(i as int));
        push_stage(s, &stages[i]);
        i = i + 1;
        assert(s@ =~= head + stage_sections(stages@.take(i as int)));
    }
    assert(stages@.take(stages@.len() as int) =~= stages@);
}

fn push_status(s: &mut String, st: &AppStatus)
    ensures
        final(s)@ == old(s)@ + "### Final Application Status\n\n"@ + status_lines(*st) + "\n"@,
{
    let ghost start = s@;
    s.append("### Final Application Status\n\n");
    let ghost a = s@;
    push_mark_line(s, "- **Builds Successfully**: ", st.builds_successfully);
    push_mark_line(s, "- **Tests Pass**: ", st.tests_pass);
    push_mark_line(s, "- **Deployment Ready**: ", st.deployment_ready);
    push_mark_line(s, "- **Functionality Works**: ", st.functionality_works);
    push_mark_line(s, "- **Performance Acceptable**: ", st.performance_acceptable);
    assert(s@ =~= a + status_lines(*st));
    s.append("\n");
    assert(s@ =~= start + "### Final Application Status\n\n"@ + status_lines(*st) + "\n"@);
}

fn push_pipeline(s: &mut String, p: &PipelineResult)
    ensures
        final(s)@ == old(s)@ + pipeline_section(*p),
{
    let ghost start = s@;
    push_pipeline_head(s, p);
    push_stages(s, &p.stages);
    push_status(s, &p.final_app_status);
    assert(pipeline_section(*p) =~= pipeline_head(*p) + stage_sections(p.stages@)
        + "### Final Application Status\n\n"@ + status_lines(p.final_app_status) + "\n"@);
    assert(s@ =~= start + pipeline_section(*p));
}

impl E2ETestRunner {
    /// Whether every stage of a pipeline succeeded.
    pub fn overall_success(stages: &Vec<StageResult>) -> (r: bool)
        ensures
            r == all_succeeded(stages@),
    {
        let mut i: usize = 0;
        while i < stages.len()
            invariant
                i <= stages@.len(),
                forall|k: int| 0 <= k < i ==> #[trigger] stages@[k].success,
            decreases stages.len() - i,
        {
            if !stages[i].success {
                return false;
            }
            i = i + 1;
        }
        true
    }

    /// The result a stage reports when every retry failed: no actions, the
    /// error, and the number of retries allowed.
    pub fn failed_stage(&self, stage_name: &str, error: &str) -> (r: StageResult)
        ensures
            r.stage_name@ == stage_name@,
            !r.success,
            r.actions_executed@.len() == 0,
            r.errors@.len() == 1,
            r.errors@[0]@ == "Stage failed: "@ + error@,
            r.duration_ms == 0,
            r.retry_count == self.config_spec().max_retries,
    {
        let mut m = "Stage failed: ".to_owned();
        m.append(error);
        StageResult {
            stage_name: stage_name.to_owned(),
            success: false,
            actions_executed: Vec::new(),
            errors: vec![m],
            duration_ms: 0,
            retry_count: self.config().max_retries,
        }
    }

    /// Chooses the idea, context and stack that the idea breakdown stage
    /// sends for an application type (`frontend` or `backend`).
    pub fn idea_breakdown_inputs(app_type: &str) -> (r: Result<(String, String, String), String>)
        ensures
            match idea_inputs(app_type@) {
                Ok((i, c, t)) => r matches Ok((ri, rc, rt)) && ri@ == i && rc@ == c && rt@ == t,
                Err(m) => r matches Err(e) && e@ == m,
            },
    {
        if crate::text::str_eq(app_type, "frontend") {
            Ok((
                "Create a Vue.js login page with form validation, responsive design, and authentication integration. Include email/password fields, remember me checkbox, forgot password link, and proper error handling.".to_owned(),
                "Building a frontend application for E2E testing".to_owned(),
                "Vue 3, TypeScript, Vite, Pinia, Vue Router, Tailwind CSS".to_owned(),
            ))
        } else if crate::text::str_eq(app_type, "backend") {
            Ok((
                "Create a GraphQL server with user authentication (login/signup) using Node.js, Express, Apollo Server, and JWT tokens. Include user registration, login, password hashing, and protected resolvers.".to_owned(),
                "Building a backend application for E2E testing".to_owned(),
                "Node.js, Express, Apollo Server, GraphQL, JWT, bcrypt, MongoDB".to_owned(),
            ))
        } else {
            Err("Invalid app type".to_owned())
        }
    }

    /// Writes the markdown report of a run: for each pipeline its verdict and
    /// duration, each stage with its errors, and the application's final
    /// status.
    pub fn test_report(&self, results: &Vec<PipelineResult>, generated: &str) -> (r: String)
        ensures
            r@ == test_report_spec(results@, generated@),
    {
        let mut s = "# E2E Pipeline Test Report\n\n".to_owned();
        s.append("Generated: ");
        s.append(generated);
        s.append("\n\n");
        let ghost head = s@;
        let mut i: usize = 0;
        while i < results.len()
            invariant
                i <= results@.len(),
                s@ == head + pipeline_sections(results@.take(i as int)),
            decreases results.len() - i,
        {
            assert(results@.take(i + 1).drop_last() =~= results@.take(i as int));
            push_pipeline(&mut s, &results[i]);
            i = i + 1;
            assert(s@ =~= head + pipeline_sections(results@.take(i as int)));
        }
        assert(results@.take(results@.len() as int) =~= results@);
        s
    }
}

} // verus!
