//! Guard for shell commands: a catalog of pattern rules, the settings that
//! decide which rules are active, a matcher, and the confirmation challenge
//! that a risky command must pass before it may run.
pub mod challenge;
pub mod check;
pub mod exit;
pub mod matcher;
pub mod pattern;
pub mod rules;
pub mod settings;
