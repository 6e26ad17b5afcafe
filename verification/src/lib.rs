//! Locate the CodeView debug identifier embedded in a Windows binary and
//! derive the Microsoft symbol-server location of its matching PDB file.
//!
//! The crate decodes the fixed-layout CodeView record found at a PE image's
//! debug-directory raw-data offset, re-orders its GUID into symbol-server
//! form, filters directory entries down to native-binary extensions, and
//! plans the bounded-retry download of the symbol file.

pub mod client;
pub mod codeview;
pub mod filter;
pub mod guid;
pub mod pe;
pub mod text;
pub mod windows;
