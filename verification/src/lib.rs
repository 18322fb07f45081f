//! Batch image compression: the planning and the in-memory transforms of a
//! compress-or-convert run over image files, with contracts checked by Verus.
//!
//! The library never touches the file system. It is handed the path and the
//! bytes of a source file and hands back what is to be written where; the
//! caller reads and writes, and reports to the run how each write went.
//! Decoding and encoding are done by the `image` and `oxipng` crates, called
//! in `codec`.

pub mod args;
pub mod batch;
pub mod codec;
pub mod compress;
pub mod error;
pub mod format;
pub mod paths;
pub mod pipeline;
pub mod quality;
pub mod resize;
pub mod units;
