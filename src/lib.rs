//! Drives a third-party chat page embedded in a desktop window: escapes a
//! message into an injected script, models the injection engine's retry and
//! timeout rules, the completion watcher, the page-load check and the host's
//! session bookkeeping, each with a verified contract.

pub mod connectivity;
pub mod escape;
pub mod injection;
pub mod scripts;
pub mod session;
pub mod settings;
pub mod watcher;
