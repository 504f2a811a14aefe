//! Payloads that language models return for structured prompts.

pub mod prompt_responses;
