//! The responses that language models give back, sorted by the prompt they
//! answer, and the todo lists and actions they carry.

use vstd::prelude::*;
use crate::enums::action::{
    Action, clone_actions, lemma_same_action_equivalence, same_action, same_actions,
};
use crate::models::prompt_responses::{
    ApiSynchronizationResponse, CiCdFixResponse, CodeReviewInput, ConflictResolutionInput,
    DockerDeploymentResponse, ErrorRecoveryResponse, PerformanceOptimizationResponse,
    QaAnalysisResponse, TaskInput,
};

verus! {

/// A todo item with a title and a set of actions to perform
#[derive(Debug, PartialEq, Eq)]
pub struct Todo {
    /// The title/description of this todo item
    pub title: String,
    /// Optional description providing more context
    pub description: Option<String>,
    /// The actions to perform for this todo
    pub actions: Vec<Action>,
    /// Priority level (High, Medium, Low)
    pub priority: Option<String>,
    /// Estimated complexity or effort (Low, Medium, High)
    pub complexity: Option<String>,
}

/// Whether two todos say the same: equal texts and the same actions in order.
pub open spec fn same_todo(a: Todo, b: Todo) -> bool {
    &&& a.title == b.title
    &&& a.description == b.description
    &&& same_actions(a.actions@, b.actions@)
    &&& a.priority == b.priority
    &&& a.complexity == b.complexity
}

/// Whether two lists of todos say the same, in the same order.
pub open spec fn same_todos(a: Seq<Todo>, b: Seq<Todo>) -> bool {
    a.len() == b.len() && forall|i: int| 0 <= i < a.len() ==> #[trigger] same_todo(a[i], b[i])
}

/// All actions of a list of todos, todo after todo.
pub open spec fn flat_actions(ts: Seq<Todo>) -> Seq<Action>
    decreases ts.len(),
{
    if ts.len() == 0 {
        Seq::empty()
    } else {
        flat_actions(ts.drop_last()) + ts.last().actions@
    }
}

fn clone_opt_string(o: &Option<String>) -> (r: Option<String>)
    ensures
        r == *o,
{
    match o {
        Some(s) => Some(s.clone()),
        None => None,
    }
}

impl Clone for Todo {
    fn clone(&self) -> (r: Self)
        ensures
            same_todo(r, *self),
    {
        Todo {
            title: self.title.clone(),
            description: clone_opt_string(&self.description),
            actions: clone_actions(&self.actions),
            priority: clone_opt_string(&self.priority),
            complexity: clone_opt_string(&self.complexity),
        }
    }
}

/// A copy of a list of todos.
pub fn clone_todos(v: &Vec<Todo>) -> (r: Vec<Todo>)
    ensures
        same_todos(r@, v@),
{
    let mut r: Vec<Todo> = Vec::new();
    let mut i: usize = 0;
    while i < v.len()
        invariant
            i <= v.len(),
            same_todos(r@, v@.take(i as int)),
        decreases v.len() - i,
    {
        r.push(v[i].clone());
        i = i + 1;
    }
    assert(v@.take(v.len() as int) =~= v@);
    r
}

impl Todo {
    /// Creates a new todo with title and actions
    pub fn new(title: String, actions: Vec<Action>) -> (r: Self)
        ensures
            r == (Todo { title, description: None, actions, priority: None, complexity: None }),
    {
        Todo { title, description: None, actions, priority: None, complexity: None }
    }

    /// Creates a new todo with full details
    pub fn with_details(
        title: String,
        description: Option<String>,
        actions: Vec<Action>,
        priority: Option<String>,
        complexity: Option<String>,
    ) -> (r: Self)
        ensures
            r == (Todo { title, description, actions, priority, complexity }),
    {
        Todo { title, description, actions, priority, complexity }
    }

    /// Gets the number of actions in this todo
    pub fn action_count(&self) -> (r: usize)
        ensures
            r == self.actions@.len(),
    {
        self.actions.len()
    }

    /// Checks if this todo has any actions
    pub fn has_actions(&self) -> (r: bool)
        ensures
            r == (self.actions@.len() > 0),
    {
        self.actions.len() != 0
    }
}

/// Result type for agent responses that can either accept or reject
#[derive(Debug, Clone)]
pub enum AgentResult<T> {
    /// Agent accepts and provides response data
    Accept { data: T },
    /// Agent rejects with reason and blocking issues
    Reject { reason: String, blocking_issues: Vec<String> },
}

impl<T> AgentResult<T> {
    /// Creates an accept result
    pub fn accept(data: T) -> (r: Self)
        ensures
            r == (AgentResult::Accept { data }),
    {
        AgentResult::Accept { data }
    }

    /// Creates a reject result
    pub fn reject(reason: String, blocking_issues: Vec<String>) -> (r: Self)
        ensures
            r == (AgentResult::<T>::Reject { reason, blocking_issues }),
    {
        AgentResult::Reject { reason, blocking_issues }
    }

    /// Checks if this is an accept result
    pub fn is_accept(&self) -> (r: bool)
        ensures
            r == (*self is Accept),
    {
        matches!(self, AgentResult::Accept { .. })
    }

    /// Checks if this is a reject result
    pub fn is_reject(&self) -> (r: bool)
        ensures
            r == (*self is Reject),
    {
        matches!(self, AgentResult::Reject { .. })
    }

    /// Extracts data if accept, returns None if reject
    pub fn into_data(self) -> (r: Option<T>)
        ensures
            r == (match self {
                AgentResult::Accept { data } => Some(data),
                AgentResult::Reject { .. } => None,
            }),
    {
        match self {
            AgentResult::Accept { data } => Some(data),
            AgentResult::Reject { .. } => None,
        }
    }
}

/// Comprehensive enum representing all possible responses from LLMs for different prompts
#[derive(Debug, Clone)]
pub enum LLMResponse {
    /// Feature development - returns organized todos with actions
    FeatureDevelopment { todos: Vec<Todo> },
    /// Task development - returns organized todos with actions
    TaskDevelopment { todos: Vec<Todo> },
    /// Unit testing - returns organized todos for testing tasks
    UnitTesting { todos: Vec<Todo> },
    /// Integration testing - returns organized todos for integration testing
    IntegrationTesting { todos: Vec<Todo> },
    /// E2E testing - returns organized todos for E2E testing
    E2ETesting { todos: Vec<Todo> },
    /// Performance testing - returns organized todos for performance testing
    PerformanceTesting { todos: Vec<Todo> },
    /// Error recovery - returns organized todos for error recovery
    ErrorRecovery { response: ErrorRecoveryResponse, todos: Vec<Todo> },
    /// Idea breakdown - returns task breakdown
    IdeaBreakdown { tasks: Vec<TaskInput> },
    /// CI/CD fix analysis and improvements - returns organized todos
    CiCdFix { response: CiCdFixResponse, todos: Vec<Todo> },
    /// Docker deployment configuration - returns organized todos
    DockerDeployment { response: DockerDeploymentResponse, todos: Vec<Todo> },
    /// QA analysis comprehensive report
    QaAnalysis { response: QaAnalysisResponse },
    /// API synchronization analysis and fixes
    ApiSynchronization { response: ApiSynchronizationResponse },
    /// Performance optimization recommendations
    PerformanceOptimization { response: PerformanceOptimizationResponse },
    /// Code review agent response - returns organized todos if accepted
    CodeReviewAgent { result: AgentResult<Vec<Todo>> },
    /// QA agent response - returns organized todos if accepted
    QaAgent { result: AgentResult<Vec<Todo>> },
    /// DevOps agent response - returns organized todos if accepted
    DevOpsAgent { result: AgentResult<Vec<Todo>> },
    /// Code review input validation
    CodeReviewInput { input: CodeReviewInput },
    /// Conflict resolution input validation
    ConflictResolutionInput { input: ConflictResolutionInput },
    /// Raw JSON response when type cannot be determined
    Raw { content: String },
    /// Plain text response
    Text { content: String },
}

/// The accept-or-reject result of an agent response.
pub open spec fn agent_result_of(r: LLMResponse) -> Option<AgentResult<Vec<Todo>>> {
    match r {
        LLMResponse::CodeReviewAgent { result } => Some(result),
        LLMResponse::QaAgent { result } => Some(result),
        LLMResponse::DevOpsAgent { result } => Some(result),
        _ => None,
    }
}

/// The todos a response carries (an agent's only when it accepts).
pub open spec fn response_todos(r: LLMResponse) -> Seq<Todo> {
    match r {
        LLMResponse::FeatureDevelopment { todos } => todos@,
        LLMResponse::TaskDevelopment { todos } => todos@,
        LLMResponse::UnitTesting { todos } => todos@,
        LLMResponse::IntegrationTesting { todos } => todos@,
        LLMResponse::E2ETesting { todos } => todos@,
        LLMResponse::PerformanceTesting { todos } => todos@,
        LLMResponse::ErrorRecovery { todos, .. } => todos@,
        LLMResponse::CiCdFix { todos, .. } => todos@,
        LLMResponse::DockerDeployment { todos, .. } => todos@,
        LLMResponse::CodeReviewAgent { result } => match result {
            AgentResult::Accept { data } => data@,
            AgentResult::Reject { .. } => Seq::empty(),
        },
        LLMResponse::QaAgent { result } => match result {
            AgentResult::Accept { data } => data@,
            AgentResult::Reject { .. } => Seq::empty(),
        },
        LLMResponse::DevOpsAgent { result } => match result {
            AgentResult::Accept { data } => data@,
            AgentResult::Reject { .. } => Seq::empty(),
        },
        _ => Seq::empty(),
    }
}

/// The reason and blocking issues of an agent's rejection.
pub open spec fn rejection_of(r: LLMResponse) -> Option<(String, Vec<String>)> {
    match agent_result_of(r) {
        Some(AgentResult::Reject { reason, blocking_issues }) => Some((reason, blocking_issues)),
        _ => None,
    }
}

/// Whether a response is an agent's rejection.
pub open spec fn is_rejection(r: LLMResponse) -> bool {
    rejection_of(r) is Some
}

/// Whether a response carries a structured analysis that asks for follow-up.
pub open spec fn is_structured_analysis(r: LLMResponse) -> bool {
    ||| r is CiCdFix
    ||| r is DockerDeployment
    ||| r is QaAnalysis
    ||| r is ApiSynchronization
    ||| r is PerformanceOptimization
}

/// The category name of a response.
pub open spec fn response_type_name(r: LLMResponse) -> Seq<char> {
    match r {
        LLMResponse::FeatureDevelopment { .. } => "feature_development"@,
        LLMResponse::TaskDevelopment { .. } => "task_development"@,
        LLMResponse::UnitTesting { .. } => "unit_testing"@,
        LLMResponse::IntegrationTesting { .. } => "integration_testing"@,
        LLMResponse::E2ETesting { .. } => "e2e_testing"@,
        LLMResponse::PerformanceTesting { .. } => "performance_testing"@,
        LLMResponse::ErrorRecovery { .. } => "error_recovery"@,
        LLMResponse::IdeaBreakdown { .. } => "idea_breakdown"@,
        LLMResponse::CiCdFix { .. } => "ci_cd_fix"@,
        LLMResponse::DockerDeployment { .. } => "docker_deployment"@,
        LLMResponse::QaAnalysis { .. } => "qa_analysis"@,
        LLMResponse::ApiSynchronization { .. } => "api_synchronization"@,
        LLMResponse::PerformanceOptimization { .. } => "performance_optimization"@,
        LLMResponse::CodeReviewAgent { .. } => "code_review_agent"@,
        LLMResponse::QaAgent { .. } => "qa_agent"@,
        LLMResponse::DevOpsAgent { .. } => "devops_agent"@,
        LLMResponse::CodeReviewInput { .. } => "code_review_input"@,
        LLMResponse::ConflictResolutionInput { .. } => "conflict_resolution_input"@,
        LLMResponse::Raw { .. } => "raw"@,
        LLMResponse::Text { .. } => "text"@,
    }
}

/// Whether `todos` is the one todo titled `title` that holds `actions`.
pub open spec fn is_single_todo(todos: Vec<Todo>, title: Seq<char>, actions: Vec<Action>) -> bool {
    &&& todos@.len() == 1
    &&& todos@[0].title@ == title
    &&& todos@[0].description is None
    &&& todos@[0].actions == actions
    &&& todos@[0].priority is None
    &&& todos@[0].complexity is None
}

/// What decoding one JSON document as each shape a response can take gave,
/// shape by shape (`None` where the document does not have that shape).
#[derive(Debug)]
pub struct DecodedJson {
    pub todos: Option<Vec<Todo>>,
    pub actions: Option<Vec<Action>>,
    pub ci_cd_fix: Option<CiCdFixResponse>,
    pub docker_deployment: Option<DockerDeploymentResponse>,
    pub qa_analysis: Option<QaAnalysisResponse>,
    pub api_synchronization: Option<ApiSynchronizationResponse>,
    pub performance_optimization: Option<PerformanceOptimizationResponse>,
    pub tasks: Option<Vec<TaskInput>>,
    pub code_review_input: Option<CodeReviewInput>,
    pub conflict_resolution_input: Option<ConflictResolutionInput>,
    /// What decoding the document as an agent's rejection,
    /// `{"Reject": {"reason": .., "blocking_issues": [..]}}`, gave: the reason
    /// and the blocking issues.
    pub rejection: Option<(String, Vec<String>)>,
}

/// The response that a JSON document is read as: the first shape it has, in
/// the order todo list, action list, CI/CD fix, Docker deployment, QA
/// analysis, API synchronization, performance optimization, task list, code
/// review input, conflict resolution input; a document of none of these
/// shapes is kept raw.
pub open spec fn is_decoded_response(json: Seq<char>, d: DecodedJson, r: LLMResponse) -> bool {
    if d.todos is Some {
        r == LLMResponse::FeatureDevelopment { todos: d.todos->0 }
    } else if d.actions is Some {
        r matches LLMResponse::FeatureDevelopment { todos } && is_single_todo(
            todos,
            "Feature Development"@,
            d.actions->0,
        )
    } else if d.ci_cd_fix is Some {
        r matches LLMResponse::CiCdFix { response, todos } && response == d.ci_cd_fix->0
            && todos@.len() == 0
    } else if d.docker_deployment is Some {
        r matches LLMResponse::DockerDeployment { response, todos } && response
            == d.docker_deployment->0 && todos@.len() == 0
    } else if d.qa_analysis is Some {
        r == LLMResponse::QaAnalysis { response: d.qa_analysis->0 }
    } else if d.api_synchronization is Some {
        r == LLMResponse::ApiSynchronization { response: d.api_synchronization->0 }
    } else if d.performance_optimization is Some {
        r == LLMResponse::PerformanceOptimization { response: d.performance_optimization->0 }
    } else if d.tasks is Some {
        r == LLMResponse::IdeaBreakdown { tasks: d.tasks->0 }
    } else if d.code_review_input is Some {
        r == LLMResponse::CodeReviewInput { input: d.code_review_input->0 }
    } else if d.conflict_resolution_input is Some {
        r == LLMResponse::ConflictResolutionInput { input: d.conflict_resolution_input->0 }
    } else {
        r matches LLMResponse::Raw { content } && content@ == json
    }
}

impl LLMResponse {
    /// Reads a JSON document as a response, given what decoding it as each
    /// shape gave: the first shape that fits wins, and a document that fits
    /// none is kept as a raw response. Reading never fails, and never gives
    /// an agent's rejection.
    pub fn from_decoded_json(json_str: &str, decoded: DecodedJson) -> (r: Self)
        ensures
            is_decoded_response(json_str@, decoded, r),
            !is_rejection(r),
    {
        let ghost d = decoded;
        if let Some(todos) = decoded.todos {
            return LLMResponse::FeatureDevelopment { todos };
        }
        if let Some(actions) = decoded.actions {
            let todo = Todo::new("Feature Development".to_owned(), actions);
            return LLMResponse::FeatureDevelopment { todos: vec![todo] };
        }
        if let Some(response) = decoded.ci_cd_fix {
            return LLMResponse::CiCdFix { response, todos: Vec::new() };
        }
        if let Some(response) = decoded.docker_deployment {
            return LLMResponse::DockerDeployment { response, todos: Vec::new() };
        }
        if let Some(response) = decoded.qa_analysis {
            return LLMResponse::QaAnalysis { response };
        }
        if let Some(response) = decoded.api_synchronization {
            return LLMResponse::ApiSynchronization { response };
        }
        if let Some(response) = decoded.performance_optimization {
            return LLMResponse::PerformanceOptimization { response };
        }
        if let Some(tasks) = decoded.tasks {
            return LLMResponse::IdeaBreakdown { tasks };
        }
        if let Some(input) = decoded.code_review_input {
            return LLMResponse::CodeReviewInput { input };
        }
        if let Some(input) = decoded.conflict_resolution_input {
            return LLMResponse::ConflictResolutionInput { input };
        }
        LLMResponse::Raw { content: json_str.to_owned() }
    }

    /// The todo list this response carries, if any.
    fn todo_list(&self) -> (r: Option<&Vec<Todo>>)
        ensures
            r matches Some(v) ==> v@ == response_todos(*self),
            r is None ==> response_todos(*self) == Seq::<Todo>::empty(),
    {
        match self {
            LLMResponse::FeatureDevelopment { todos } => Some(todos),
            LLMResponse::TaskDevelopment { todos } => Some(todos),
            LLMResponse::UnitTesting { todos } => Some(todos),
            LLMResponse::IntegrationTesting { todos } => Some(todos),
            LLMResponse::E2ETesting { todos } => Some(todos),
            LLMResponse::PerformanceTesting { todos } => Some(todos),
            LLMResponse::ErrorRecovery { todos, .. } => Some(todos),
            LLMResponse::CiCdFix { todos, .. } => Some(todos),
            LLMResponse::DockerDeployment { todos, .. } => Some(todos),
            LLMResponse::CodeReviewAgent { result } => match result {
                AgentResult::Accept { data } => Some(data),
                AgentResult::Reject { .. } => None,
            },
            LLMResponse::QaAgent { result } => match result {
                AgentResult::Accept { data } => Some(data),
                AgentResult::Reject { .. } => None,
            },
            LLMResponse::DevOpsAgent { result } => match result {
                AgentResult::Accept { data } => Some(data),
                AgentResult::Reject { .. } => None,
            },
            _ => None,
        }
    }

    /// Extracts all actions from todos in responses
    pub fn extract_actions(&self) -> (r: Vec<Action>)
        ensures
            same_actions(r@, flat_actions(response_todos(*self))),
    {
        let mut r: Vec<Action> = Vec::new();
        match self.todo_list() {
            None => {
                assert(flat_actions(response_todos(*self)) =~= Seq::<Action>::empty());
                r
            },
            Some(todos) => {
                let mut i: usize = 0;
                while i < todos.len()
                    invariant
                        i <= todos.len(),
                        same_actions(r@, flat_actions(todos@.take(i as int))),
                    decreases todos.len() - i,
                {
                    let ghost before = flat_actions(todos@.take(i as int));
                    let acts = &todos[i].actions;
                    let mut j: usize = 0;
                    while j < acts.len()
                        invariant
                            j <= acts.len(),
                            r@.len() == before.len() + j,
                            forall|k: int|
                                0 <= k < r@.len() ==> #[trigger] same_action(
                                    r@[k],
                                    (before + acts@.take(j as int))[k],
                                ),
                        decreases acts.len() - j,
                    {
                        r.push(acts[j].clone());
                        j = j + 1;
                        assert forall|k: int| 0 <= k < r@.len() implies #[trigger] same_action(
                            r@[k],
                            (before + acts@.take(j as int))[k],
                        ) by {
                            if k < r@.len() - 1 {
                                assert((before + acts@.take(j as int))[k] == (before
                                    + acts@.take(j - 1))[k]);
                            }
                        }
                    }
                    assert(todos@.take(i + 1).drop_last() =~= todos@.take(i as int));
                    assert(acts@.take(j as int) =~= acts@);
                    i = i + 1;
                }
                assert(todos@.take(todos.len() as int) =~= todos@);
                r
            },
        }
    }

    /// Extracts todos from responses that contain them
    pub fn extract_todos(&self) -> (r: Vec<Todo>)
        ensures
            same_todos(r@, response_todos(*self)),
    {
        match self.todo_list() {
            Some(todos) => clone_todos(todos),
            None => Vec::new(),
        }
    }

    /// Checks if this is a rejection response
    pub fn is_rejection(&self) -> (r: bool)
        ensures
            r == is_rejection(*self),
    {
        match self {
            LLMResponse::CodeReviewAgent { result } => matches!(result, AgentResult::Reject { .. }),
            LLMResponse::QaAgent { result } => matches!(result, AgentResult::Reject { .. }),
            LLMResponse::DevOpsAgent { result } => matches!(result, AgentResult::Reject { .. }),
            _ => false,
        }
    }

    /// The rejection of an agent response, if it is one.
    fn rejection(&self) -> (r: Option<(&String, &Vec<String>)>)
        ensures
            match rejection_of(*self) {
                Some((reason, issues)) => r matches Some((a, b)) && *a == reason && *b == issues,
                None => r is None,
            },
    {
        let result = match self {
            LLMResponse::CodeReviewAgent { result } => result,
            LLMResponse::QaAgent { result } => result,
            LLMResponse::DevOpsAgent { result } => result,
            _ => {
                return None;
            },
        };
        match result {
            AgentResult::Reject { reason, blocking_issues } => Some((reason, blocking_issues)),
            AgentResult::Accept { .. } => None,
        }
    }

    /// Gets rejection reason if this is a rejection
    pub fn get_rejection_reason(&self) -> (r: Option<&str>)
        ensures
            match rejection_of(*self) {
                Some((reason, _)) => r matches Some(s) && s@ == reason@,
                None => r is None,
            },
    {
        match self.rejection() {
            Some((reason, _)) => Some(reason.as_str()),
            None => None,
        }
    }

    /// Gets blocking issues if this is a rejection
    pub fn get_blocking_issues(&self) -> (r: Vec<&str>)
        ensures
            match rejection_of(*self) {
                Some((_, issues)) => r@.len() == issues@.len() && forall|i: int|
                    0 <= i < r@.len() ==> #[trigger] r@[i]@ == issues@[i]@,
                None => r@.len() == 0,
            },
    {
        let mut r: Vec<&str> = Vec::new();
        match self.rejection() {
            Some((_, issues)) => {
                let mut i: usize = 0;
                while i < issues.len()
                    invariant
                        i <= issues.len(),
                        r@.len() == i,
                        forall|k: int| 0 <= k < i ==> #[trigger] r@[k]@ == issues@[k]@,
                    decreases issues.len() - i,
                {
                    r.push(issues[i].as_str());
                    i = i + 1;
                }
                r
            },
            None => r,
        }
    }

    /// Determines the response type for categorization
    pub fn response_type(&self) -> (r: &'static str)
        ensures
            r@ == response_type_name(*self),
    {
        match self {
            LLMResponse::FeatureDevelopment { .. } => "feature_development",
            LLMResponse::TaskDevelopment { .. } => "task_development",
            LLMResponse::UnitTesting { .. } => "unit_testing",
            LLMResponse::IntegrationTesting { .. } => "integration_testing",
            LLMResponse::E2ETesting { .. } => "e2e_testing",
            LLMResponse::PerformanceTesting { .. } => "performance_testing",
            LLMResponse::ErrorRecovery { .. } => "error_recovery",
            LLMResponse::IdeaBreakdown { .. } => "idea_breakdown",
            LLMResponse::CiCdFix { .. } => "ci_cd_fix",
            LLMResponse::DockerDeployment { .. } => "docker_deployment",
            LLMResponse::QaAnalysis { .. } => "qa_analysis",
            LLMResponse::ApiSynchronization { .. } => "api_synchronization",
            LLMResponse::PerformanceOptimization { .. } => "performance_optimization",
            LLMResponse::CodeReviewAgent { .. } => "code_review_agent",
            LLMResponse::QaAgent { .. } => "qa_agent",
            LLMResponse::DevOpsAgent { .. } => "devops_agent",
            LLMResponse::CodeReviewInput { .. } => "code_review_input",
            LLMResponse::ConflictResolutionInput { .. } => "conflict_resolution_input",
            LLMResponse::Raw { .. } => "raw",
            LLMResponse::Text { .. } => "text",
        }
    }

    /// Checks if response contains executable actions
    pub fn has_actions(&self) -> (r: bool)
        ensures
            r == (flat_actions(response_todos(*self)).len() > 0),
    {
        self.extract_actions().len() != 0
    }

    /// Creates a feature development response from actions
    pub fn feature_development(actions: Vec<Action>) -> (r: Self)
        ensures
            r matches LLMResponse::FeatureDevelopment { todos } && is_single_todo(
                todos,
                "Feature Development"@,
                actions,
            ),
    {
        let todo = Todo::new("Feature Development".to_owned(), actions);
        LLMResponse::FeatureDevelopment { todos: vec![todo] }
    }

    /// Creates a code review agent rejection
    pub fn code_review_rejection(reason: String, blocking_issues: Vec<String>) -> (r: Self)
        ensures
            r == (LLMResponse::CodeReviewAgent {
                result: AgentResult::Reject { reason, blocking_issues },
            }),
    {
        LLMResponse::CodeReviewAgent { result: AgentResult::reject(reason, blocking_issues) }
    }

    /// Creates a code review agent acceptance
    pub fn code_review_acceptance(actions: Vec<Action>) -> (r: Self)
        ensures
            r matches LLMResponse::CodeReviewAgent { result: AgentResult::Accept { data } }
                && is_single_todo(data, "Code Review Actions"@, actions),
    {
        let todo = Todo::new("Code Review Actions".to_owned(), actions);
        LLMResponse::CodeReviewAgent { result: AgentResult::accept(vec![todo]) }
    }

    /// Creates a QA agent rejection
    pub fn qa_rejection(reason: String, blocking_issues: Vec<String>) -> (r: Self)
        ensures
            r == (LLMResponse::QaAgent { result: AgentResult::Reject { reason, blocking_issues } }),
    {
        LLMResponse::QaAgent { result: AgentResult::reject(reason, blocking_issues) }
    }

    /// Creates a QA agent acceptance
    pub fn qa_acceptance(actions: Vec<Action>) -> (r: Self)
        ensures
            r matches LLMResponse::QaAgent { result: AgentResult::Accept { data } }
                && is_single_todo(data, "QA Actions"@, actions),
    {
        let todo = Todo::new("QA Actions".to_owned(), actions);
        LLMResponse::QaAgent { result: AgentResult::accept(vec![todo]) }
    }

    /// Creates a DevOps agent rejection
    pub fn devops_rejection(reason: String, blocking_issues: Vec<String>) -> (r: Self)
        ensures
            r == (LLMResponse::DevOpsAgent {
                result: AgentResult::Reject { reason, blocking_issues },
            }),
    {
        LLMResponse::DevOpsAgent { result: AgentResult::reject(reason, blocking_issues) }
    }

    /// Creates a DevOps agent acceptance
    pub fn devops_acceptance(actions: Vec<Action>) -> (r: Self)
        ensures
            r matches LLMResponse::DevOpsAgent { result: AgentResult::Accept { data } }
                && is_single_todo(data, "DevOps Actions"@, actions),
    {
        let todo = Todo::new("DevOps Actions".to_owned(), actions);
        LLMResponse::DevOpsAgent { result: AgentResult::accept(vec![todo]) }
    }

    /// Creates a raw text response
    pub fn text(content: String) -> (r: Self)
        ensures
            r == (LLMResponse::Text { content }),
    {
        LLMResponse::Text { content }
    }

    /// Creates a raw JSON response
    pub fn raw(content: String) -> (r: Self)
        ensures
            r == (LLMResponse::Raw { content }),
    {
        LLMResponse::Raw { content }
    }

    /// Check if this response requires follow-up actions
    pub fn requires_followup(&self) -> (r: bool)
        ensures
            r == (is_structured_analysis(*self) || flat_actions(response_todos(*self)).len() > 0),
    {
        match self {
            LLMResponse::CiCdFix { .. }
            | LLMResponse::DockerDeployment { .. }
            | LLMResponse::QaAnalysis { .. }
            | LLMResponse::ApiSynchronization { .. }
            | LLMResponse::PerformanceOptimization { .. } => true,
            _ => self.has_actions(),
        }
    }
}

/// Lists of todos that say the same give the same actions, todo after todo.
proof fn lemma_same_todos_flatten_alike(a: Seq<Todo>, b: Seq<Todo>)
    requires
        same_todos(a, b),
    ensures
        same_actions(flat_actions(a), flat_actions(b)),
    decreases a.len(),
{
    if a.len() > 0 {
        let n = a.len() - 1;
        assert(same_todo(a[n], b[n]));
        assert forall|i: int| 0 <= i < n implies #[trigger] same_todo(
            a.drop_last()[i],
            b.drop_last()[i],
        ) by {
            assert(same_todo(a[i], b[i]));
        }
        lemma_same_todos_flatten_alike(a.drop_last(), b.drop_last());
        let fa = flat_actions(a.drop_last());
        let fb = flat_actions(b.drop_last());
        let xa = a.last().actions@;
        let xb = b.last().actions@;
        assert forall|i: int| 0 <= i < (fa + xa).len() implies #[trigger] same_action(
            (fa + xa)[i],
            (fb + xb)[i],
        ) by {
            if i < fa.len() {
                assert(same_action(fa[i], fb[i]));
            } else {
                assert(same_action(xa[i - fa.len()], xb[i - fa.len()]));
            }
        }
    }
}

/// The actions of a response are its todos' actions, todo after todo: what
/// `extract_actions` gives says the same as flattening what `extract_todos`
/// gives.
pub proof fn lemma_actions_are_the_todos_flattened(
    response: LLMResponse,
    actions: Seq<Action>,
    todos: Seq<Todo>,
)
    requires
        same_actions(actions, flat_actions(response_todos(response))),
        same_todos(todos, response_todos(response)),
    ensures
        same_actions(actions, flat_actions(todos)),
{
    let t = response_todos(response);
    assert forall|i: int| 0 <= i < t.len() implies #[trigger] same_todo(t[i], todos[i]) by {
        assert(same_todo(todos[i], t[i]));
        assert forall|k: int| 0 <= k < t[i].actions@.len() implies #[trigger] same_action(
            t[i].actions@[k],
            todos[i].actions@[k],
        ) by {
            assert(same_action(todos[i].actions@[k], t[i].actions@[k]));
            lemma_same_action_equivalence(todos[i].actions@[k], t[i].actions@[k], t[i].actions@[k]);
        }
    }
    lemma_same_todos_flatten_alike(t, todos);
    let f = flat_actions(t);
    let g = flat_actions(todos);
    assert forall|i: int| 0 <= i < actions.len() implies #[trigger] same_action(actions[i], g[i]) by {
        assert(same_action(actions[i], f[i]));
        assert(same_action(f[i], g[i]));
        lemma_same_action_equivalence(actions[i], f[i], g[i]);
    }
}

/// A response gives the work it carries: where `todos` and `actions` are
/// what `extract_todos` and `extract_actions` give for `r`, a response that
/// holds a todo list gives that list and its actions in order; an agent that
/// accepts gives the todos of its acceptance and their actions in order; an
/// agent that rejects gives neither.
pub proof fn lemma_responses_give_the_work_they_carry(
    r: LLMResponse,
    todos: Seq<Todo>,
    actions: Seq<Action>,
)
    requires
        same_todos(todos, response_todos(r)),
        same_actions(actions, flat_actions(response_todos(r))),
    ensures
        r matches LLMResponse::CodeReviewAgent { result: AgentResult::Accept { data } } ==> same_todos(
            todos,
            data@,
        ) && same_actions(actions, flat_actions(data@)),
        r matches LLMResponse::CodeReviewAgent { result: AgentResult::Reject { .. } } ==> todos.len() == 0
            && actions.len() == 0,
        r matches LLMResponse::QaAgent { result: AgentResult::Accept { data } } ==> same_todos(
            todos,
            data@,
        ) && same_actions(actions, flat_actions(data@)),
        r matches LLMResponse::QaAgent { result: AgentResult::Reject { .. } } ==> todos.len() == 0
            && actions.len() == 0,
        r matches LLMResponse::DevOpsAgent { result: AgentResult::Accept { data } } ==> same_todos(
            todos,
            data@,
        ) && same_actions(actions, flat_actions(data@)),
        r matches LLMResponse::DevOpsAgent { result: AgentResult::Reject { .. } } ==> todos.len() == 0
            && actions.len() == 0,
        r matches LLMResponse::FeatureDevelopment { todos: t } ==> same_todos(todos, t@) && same_actions(
            actions,
            flat_actions(t@),
        ),
        r matches LLMResponse::TaskDevelopment { todos: t } ==> same_todos(todos, t@) && same_actions(
            actions,
            flat_actions(t@),
        ),
        r matches LLMResponse::UnitTesting { todos: t } ==> same_todos(todos, t@) && same_actions(
            actions,
            flat_actions(t@),
        ),
        r matches LLMResponse::IntegrationTesting { todos: t } ==> same_todos(todos, t@) && same_actions(
            actions,
            flat_actions(t@),
        ),
        r matches LLMResponse::E2ETesting { todos: t } ==> same_todos(todos, t@) && same_actions(
            actions,
            flat_actions(t@),
        ),
        r matches LLMResponse::PerformanceTesting { todos: t } ==> same_todos(todos, t@) && same_actions(
            actions,
            flat_actions(t@),
        ),
        r matches LLMResponse::ErrorRecovery { todos: t, .. } ==> same_todos(todos, t@) && same_actions(
            actions,
            flat_actions(t@),
        ),
        r matches LLMResponse::CiCdFix { todos: t, .. } ==> same_todos(todos, t@) && same_actions(
            actions,
            flat_actions(t@),
        ),
        r matches LLMResponse::DockerDeployment { todos: t, .. } ==> same_todos(todos, t@) && same_actions(
            actions,
            flat_actions(t@),
        ),
{
}

} // verus!
