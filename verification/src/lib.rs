//! Orchy: the decision logic of an AI-driven project orchestrator.
//!
//! The library holds the status state machines of tasks, issues, agents and
//! code, the model of the responses that language models give back, the
//! actions those responses ask for and the decisions taken while running
//! them, the text handling that pulls JSON out of a model's answer, the
//! managers' statistics and retry policy, and the helpers of the database
//! layer.

pub mod error;
pub mod enums;
pub mod models;
pub mod mcp;
pub mod text;
pub mod text_fmt;
pub mod managers;
pub mod e2e_tests;
pub mod database;
pub mod e2e_pipeline;
