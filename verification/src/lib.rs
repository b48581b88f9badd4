//! Multi-repository release orchestration, modelled as verified pure logic.
//!
//! The library holds the version-file detection and rewrite strategy, the
//! per-repository release state machine, and the outcome aggregation. All
//! network traffic is performed by a thin unverified shell that feeds events
//! back into the state machine.

pub mod config;
pub mod orchestrator;
pub mod strategy;
pub mod workflow;

pub use config::Config;
pub use config::JSONPattern;
pub use config::JSONRepo;
pub use config::ParsedArgs;
pub use strategy::EcosystemKind;
pub use strategy::RootFile;
pub use strategy::VersionFile;
pub use strategy::detect_version_file;
pub use strategy::rewrite_version;
pub use workflow::ChangeRequestHandle;
pub use workflow::ClientAction;
pub use workflow::ClientEvent;
pub use workflow::WorkflowError;
pub use workflow::WorkflowState;
pub use workflow::drive_workflow;
pub use workflow::initial_action;
pub use workflow::step;
pub use workflow::workflow_done;
pub use orchestrator::RunSummary;
pub use orchestrator::WorkflowOutcome;
pub use orchestrator::finish_workflow;
pub use orchestrator::run_all;
pub use orchestrator::run_workflow;
pub use orchestrator::summarize;
