//! Resolve a file path to its canonical absolute form, optionally render it
//! as a `file://` URI, and decide how the result is delivered.
//!
//! The filesystem resolution itself is delegated to the host operating
//! system by the surrounding binary; this crate holds the pure logic:
//! URI formatting with its platform rules, the diagnostic messages, and
//! the decision of what gets printed, written, or copied.

pub mod invocation;
pub mod uri;
