//! End-to-end pipeline runs that calibrate the prompts: the configuration of a
//! run, the status an application ends in, and (in `framework`) the text
//! handling that turns a model's answer into actions and files.

pub mod answer_text;
pub mod framework;
pub mod report;

use vstd::prelude::*;

verus! {

/// E2E Test Configuration
#[derive(Debug, Clone)]
pub struct E2ETestConfig {
    pub test_app_dir: String,
    pub max_retries: usize,
    pub retry_delay_ms: u64,
    pub timeout_seconds: u64,
    pub gemini_model: String,
}

impl Default for E2ETestConfig {
    fn default() -> (r: Self)
        ensures
            r.test_app_dir@ == "testing_apps"@,
            r.max_retries == 3,
            r.retry_delay_ms == 1000,
            r.timeout_seconds == 300,
            r.gemini_model@ == "gemini-2.5-flash"@,
    {
        E2ETestConfig {
            test_app_dir: "testing_apps".to_owned(),
            max_retries: 3,
            retry_delay_ms: 1000,
            timeout_seconds: 300,
            gemini_model: "gemini-2.5-flash".to_owned(),
        }
    }
}

/// Application Status after pipeline completion
#[derive(Debug, Clone, Copy, PartialEq, Eq, Structural)]
pub struct AppStatus {
    pub builds_successfully: bool,
    pub tests_pass: bool,
    pub deployment_ready: bool,
    pub functionality_works: bool,
    pub performance_acceptable: bool,
}

/// E2E Test Runner
pub struct E2ETestRunner {
    config: E2ETestConfig,
}

impl E2ETestRunner {
    /// The configuration the runner was made with.
    pub closed spec fn config_spec(&self) -> E2ETestConfig {
        self.config
    }

    pub fn new(config: E2ETestConfig) -> (r: Self)
        ensures
            r.config_spec() == config,
    {
        E2ETestRunner { config }
    }

    /// The configuration the runner was made with.
    pub fn config(&self) -> (r: &E2ETestConfig)
        ensures
            *r == self.config_spec(),
    {
        &self.config
    }
}

} // verus!
