//! A package-manager style front end whose synchronize operation resolves a
//! package against a remote index, then fetches and builds its recipe.
//!
//! The library holds the decisions: parsing the command line, choosing what
//! to do for each operation, decoding the index's answers and driving the
//! synchronize session one event at a time. The program around it performs
//! the network requests, the prompt, the file system checks and the
//! processes that the session asks for.

pub mod args;
pub mod json;
pub mod record;
pub mod sync;
pub mod session;
