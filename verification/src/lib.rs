//! Core logic of a desktop video-download backend: locating the two external
//! command-line tools, mapping abstract format/quality choices to concrete
//! selector strings, sanitizing titles into filesystem-safe names, building
//! tool invocations, classifying failures to drive a single fallback attempt,
//! and maintaining a capped download-history list.
pub mod downloader;
pub mod errors;
pub mod history;
pub mod info;
pub mod settings;
pub mod invocation;
pub mod locator;
pub mod orchestrator;
pub mod sanitize;
pub mod text;
