//! Interactive screen capture as a verified library.
//!
//! The library holds the pure part of a screenshot utility: building the
//! temporary file path for a capture, turning captured PNG bytes into a
//! `data:` URL, and deciding what the operation returns for each outcome
//! of the external capture tool.  Running that tool and reading its
//! output file are left to the host program.

pub mod capture;
pub mod encoding;
