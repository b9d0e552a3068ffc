//! Streaming event interpreter and dual-sink logger for an AI-assisted
//! merge tool: renders line-delimited JSON events from a subprocess as
//! formatted terminal output, redacts temporary-directory paths, and
//! records the raw event stream durably.

use vstd::prelude::*;

mod config;
mod event;
mod install;
mod logging;
mod merge;
mod redact;
mod render;
mod units;

pub use config::Config;
pub use config::GenerateConfigArgs;
pub use config::GenerateConfigError;
pub use config::default_config_path;
pub use event::AssistantMessage;
pub use event::Event;
pub use event::ModelUsage;
pub use event::ContentBlock;
pub use event::SuccessPayload;
pub use event::ToolInput;
pub use event::Usage;
pub use install::InstallArgs;
pub use install::InstallError;
pub use install::InstallProgram;
pub use logging::MergeLogger;
pub use logging::event_log_filename;
pub use logging::fresh_event_log_filename;
pub use logging::sanitize_filepath;
pub use merge::MergeArgs;
pub use merge::MergeArgsError;
pub use redact::redact;
pub use redact::replace_all;
pub use render::EventWriter;
pub use render::strip_leading_newlines;
pub use units::annualized_rate;
pub use units::format_dollars;
pub use units::format_elapsed;
pub use units::format_tokens;

verus! {

} // verus!
