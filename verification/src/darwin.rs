//! Direct I/O on Darwin, whose `open` has no flag for it.
//!
//! The interface is the one of the other platforms; turning direct I/O on
//! changes nothing. (Darwin's own way past the cache, `fcntl` with
//! `F_NOCACHE` on a file that is already open, is not part of this crate.)
//! [`ALIGN_SIZE`] is zero to say that no alignment is asked for here: it is
//! not a size to align to.

use vstd::prelude::*;
use crate::{Access, DirectFileExt, DirectOpenOptionsExt};

verus! {

/// Size, in bytes, to which the start of a data buffer is aligned: none.
pub const ALIGN_SIZE: i32 = 0;

/// Smallest block, in bytes, that is read or written.
pub const BLOCK_SIZE: i32 = 4096;

/// How a file is to be opened on Darwin.
#[derive(Clone, Copy, Debug, PartialEq, Eq, Structural)]
pub struct OpenOptions {
    /// The file is opened for reading.
    pub read: bool,
    /// The file is opened for writing.
    pub write: bool,
    /// The file is created if it does not exist.
    pub create: bool,
}

impl OpenOptions {
    /// Options with nothing set.
    pub fn new() -> (options: Self)
        ensures
            options == (OpenOptions { read: false, write: false, create: false }),
    {
        OpenOptions { read: false, write: false, create: false }
    }

    /// Sets whether the file is opened for reading.
    pub fn read(&mut self, read: bool) -> (out: &mut Self)
        ensures
            *out == (OpenOptions { read, ..*old(self) }),
            *final(self) == *final(out),
    {
        self.read = read;
        self
    }

    /// Sets whether the file is opened for writing.
    pub fn write(&mut self, write: bool) -> (out: &mut Self)
        ensures
            *out == (OpenOptions { write, ..*old(self) }),
            *final(self) == *final(out),
    {
        self.write = write;
        self
    }

    /// Sets whether the file is created if it does not exist.
    pub fn create(&mut self, create: bool) -> (out: &mut Self)
        ensures
            *out == (OpenOptions { create, ..*old(self) }),
            *final(self) == *final(out),
    {
        self.create = create;
        self
    }
}

impl DirectOpenOptionsExt for OpenOptions {
    open spec fn access(&self) -> Access {
        Access { read: self.read, write: self.write, create: self.create }
    }

    /// Leaves the options as they are.
    fn direct(&mut self) -> (out: &mut Self)
        ensures
            *out == *old(self),
    {
        self
    }
}

impl DirectFileExt for OpenOptions {
    /// Fresh options with `create` and `write`.
    fn direct_create() -> (options: Self)
        ensures
            options == (OpenOptions { read: false, write: true, create: true }),
    {
        let mut options = OpenOptions::new();
        options.create(true).write(true).direct();
        options
    }

    /// Fresh options with `read`.
    fn direct_open() -> (options: Self)
        ensures
            options == (OpenOptions { read: true, write: false, create: false }),
    {
        let mut options = OpenOptions::new();
        options.read(true).direct();
        options
    }
}

} // verus!
