//! The mounted flash filesystem's place in the library.
//!
//! The flash partition with the web pages and icons is mounted by the host
//! at a fixed base directory; reading a file there is plain I/O and stays
//! outside the library.  What belongs to the library is the base path the
//! rest of the system builds its paths from, and the interface a file-like
//! source offers to the drawing code.

use vstd::prelude::*;

verus! {

/// Where the host mounts the flash filesystem.
pub const BASE_DIR: &'static str = "/mnt";

/// A source whose whole content can be read as raw bytes.
pub trait ReadFile {
    fn raw_bytes(&mut self) -> Vec<u8>;
}

} // verus!
