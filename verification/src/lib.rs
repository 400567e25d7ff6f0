//! A verified configuration and process-control layer around an external
//! interactive fuzzy-finder program.
//!
//! The crate builds a command-line argument list from a typed configuration
//! snapshot, prepares the newline-terminated lines that are streamed to the
//! finder's input, and decides what the captured output means once the finder
//! exits.  The process itself is spawned by an unverified shell around this
//! library; everything that can be stated and proved — the argument mapping,
//! the option tokens, the line preparation, the output decision and the
//! session lifecycle — lives here.

pub mod fzf;
pub mod options;
pub mod session;
pub mod text;

pub use fzf::Fzf;
pub use fzf::FzfBuilder;
