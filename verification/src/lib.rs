//! Normalization of what lexical providers hand back: a thesaurus document
//! is reduced to a flat list of synonyms, and every outcome is paired with
//! the status and the body that the client receives.

pub mod analysis;
pub mod endpoints;
pub mod json;
pub mod outcome;
pub mod provider;
pub mod reason;
pub mod synonyms;
