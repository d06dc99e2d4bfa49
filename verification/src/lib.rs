//! Archives of directory trees, held in memory.
//!
//! A tree is a list of entries. `pack` writes it as a tar archive inside an
//! xz, gzip, zstd or bzip2 stream, or as a 7z archive; `unpack` reads such an
//! archive back into the entries to put on disk. `resolve` tells from an
//! output specification which file to write and in which format, and
//! `roundtrip` states how reading undoes writing.

pub mod codec;
pub mod entry;
pub mod error;
pub mod extension;
pub mod pack;
pub mod path;
pub mod resolve;
pub mod roundtrip;
pub mod sevenz;
pub mod tarball;
pub mod unpack;
