//! Capture orchestration engine: the state machine and pure decision logic
//! behind an operator tool that produces uniquely named screenshot evidence
//! files for test-case identifiers.
//!
//! The surrounding application supplies the platform work (window control,
//! display enumeration, pixel grabbing, file writes) and feeds plain values in;
//! every decision — when a capture may start, which display is targeted, which
//! filename is free, how an outcome is reported — is made here, under contract.

pub mod allocator;
pub mod chars;
pub mod error;
pub mod executor;
pub mod items;
pub mod numeral;
pub mod orchestrator;
pub mod selector;
pub mod text;
