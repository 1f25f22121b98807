//! Static analysis of container build scripts and of multi-service
//! descriptors: a parser for each build script, rules that raise issues on what
//! was parsed, scores derived from the issues, and reports.
//!
//! Every function is verified against a contract that is stated over the text
//! and the values that it works on. Two things are taken on trust and named
//! in the contracts that rest on them: what the `regex` crate finds when it
//! searches a text with a regular expression, and what the standard library
//! makes of a text when it changes the case of its letters.

pub mod analyzer;
pub mod output;
pub mod parser;
pub mod pattern;
pub mod rules;
pub mod scoring;
pub mod text;
