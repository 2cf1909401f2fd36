//! Open options for direct I/O: file access that goes past the operating
//! system's page cache.
//!
//! Each platform asks for direct I/O in its own way. Unix has the `O_DIRECT`
//! flag of `open`; Windows has the `FILE_FLAG_NO_BUFFERING` and
//! `FILE_FLAG_WRITE_THROUGH` attributes of `CreateFile`; Darwin has no flag
//! at all. This crate holds one set of open options per platform, in the
//! modules [`unix`], [`windows`] and [`darwin`], behind two traits that are
//! the same everywhere:
//!
//! - [`DirectOpenOptionsExt`] turns direct I/O on in a set of options;
//! - [`DirectFileExt`] gives the options with which a file is created for
//!   writing or opened for reading.
//!
//! The options are plain values. Handing them to the operating system, and
//! choosing the module that fits the target, is the caller's part.
//!
//! Buffers that are read or written through a file opened this way must
//! start at a multiple of the platform's `ALIGN_SIZE` and have a length that
//! is a multiple of its `BLOCK_SIZE`. Nothing here checks or pads them.

use vstd::prelude::*;

pub mod darwin;
pub mod unix;
pub mod windows;

verus! {

/// What an open call is asked to do with the file itself, whatever the
/// platform: the part of a set of open options that direct I/O never
/// touches.
pub struct Access {
    /// The file is opened for reading.
    pub read: bool,
    /// The file is opened for writing.
    pub write: bool,
    /// The file is created if it does not exist.
    pub create: bool,
}

/// Direct I/O on a set of open options.
pub trait DirectOpenOptionsExt: Sized {
    /// The read, write and create settings of the options.
    spec fn access(&self) -> Access;

    /// Adds the platform's direct I/O flags to the options and hands the
    /// same options back, so that the call can stand in a chain of setters.
    ///
    /// On every platform the read, write and create settings stay as they
    /// were. What happens to the flags is stated by each platform's own
    /// options.
    fn direct(&mut self) -> (out: &mut Self)
        ensures
            out.access() == old(self).access(),
            *final(self) == *final(out),
    ;
}

/// The two ways in which a file is opened for direct I/O, each as the
/// options that the open call is made with.
pub trait DirectFileExt: DirectOpenOptionsExt {
    /// The options with which a file is created, or opened if it exists,
    /// for direct writing: fresh options with `create` and `write` set and
    /// direct I/O turned on.
    fn direct_create() -> (options: Self)
        ensures
            options.access() == (Access { read: false, write: true, create: true }),
    ;

    /// The options with which an existing file is opened for direct
    /// reading: fresh options with `read` set and direct I/O turned on.
    fn direct_open() -> (options: Self)
        ensures
            options.access() == (Access { read: true, write: false, create: false }),
    ;
}

} // verus!
