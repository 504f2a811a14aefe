//! Integration with the Gemini command line client: the text handling of its
//! answers.

pub mod gemini;
