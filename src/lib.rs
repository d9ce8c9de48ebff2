//! A triage agent for security events: it reads a policy snapshot from an
//! embedded key-value store, picks a response directive, synthesizes a rule
//! when the snapshot calls for one, and records the outcome.

pub mod kb;
pub mod text;
pub mod policy_manager;
pub mod cybersecurity_agent;
