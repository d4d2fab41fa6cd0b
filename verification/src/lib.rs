//! A read-only, scrollable terminal text viewer.
//!
//! The library holds the verified core: the document model (lines of bytes),
//! the viewport, and the cursor/scroll coordinator that decides, on every
//! navigation command, whether the on-screen cursor moves within the visible
//! window or the window scrolls over the document. Terminal I/O lives outside
//! the library.

pub mod document;
pub mod editor;
pub mod terminal;
