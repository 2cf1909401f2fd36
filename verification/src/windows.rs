//! Direct I/O on Windows: the `FILE_FLAG_NO_BUFFERING` and
//! `FILE_FLAG_WRITE_THROUGH` attributes of `CreateFile`.

use vstd::prelude::*;
use crate::{Access, DirectFileExt, DirectOpenOptionsExt};

verus! {

/// Size, in bytes, to which the start of a data buffer is aligned.
pub const ALIGN_SIZE: usize = 4096;

/// Smallest block, in bytes, that is read or written.
pub const BLOCK_SIZE: usize = 4096;

/// The file is read and written without the system's buffers.
pub const FILE_FLAG_NO_BUFFERING: u32 = 0x2000_0000;

/// Writes go through to the disk before they return.
pub const FILE_FLAG_WRITE_THROUGH: u32 = 0x8000_0000;

/// How a file is to be opened on Windows.
#[derive(Clone, Copy, Debug, PartialEq, Eq, Structural)]
pub struct OpenOptions {
    /// The file is opened for reading.
    pub read: bool,
    /// The file is opened for writing.
    pub write: bool,
    /// The file is created if it does not exist.
    pub create: bool,
    /// Bits that are passed on in the flags and attributes of `CreateFile`.
    pub attributes: u32,
}

impl OpenOptions {
    /// These options with both direct I/O attributes set.
    pub open spec fn with_direct(self) -> Self {
        OpenOptions {
            attributes: self.attributes | (FILE_FLAG_NO_BUFFERING | FILE_FLAG_WRITE_THROUGH),
            ..self
        }
    }

    /// Whether every bit of `attributes` is set among the attributes.
    pub open spec fn has_attributes(self, attributes: u32) -> bool {
        self.attributes & attributes == attributes
    }

    /// Options with nothing set.
    pub fn new() -> (options: Self)
        ensures
            options == (OpenOptions {
                read: false,
                write: false,
                create: false,
                attributes: 0,
            }),
    {
        OpenOptions { read: false, write: false, create: false, attributes: 0 }
    }

    /// Sets whether the file is opened for reading.
    pub fn read(&mut self, read: bool) -> (out: &mut Self)
        ensures
            *out == (OpenOptions { read, ..*old(self) }),
            *final(self) == *final(out),
    {
        self.read = read;
        self
    }

    /// Sets whether the file is opened for writing.
    pub fn write(&mut self, write: bool) -> (out: &mut Self)
        ensures
            *out == (OpenOptions { write, ..*old(self) }),
            *final(self) == *final(out),
    {
        self.write = write;
        self
    }

    /// Sets whether the file is created if it does not exist.
    pub fn create(&mut self, create: bool) -> (out: &mut Self)
        ensures
            *out == (OpenOptions { create, ..*old(self) }),
            *final(self) == *final(out),
    {
        self.create = create;
        self
    }

    /// Replaces the attributes by `attributes`.
    pub fn attributes(&mut self, attributes: u32) -> (out: &mut Self)
        ensures
            *out == (OpenOptions { attributes, ..*old(self) }),
            *final(self) == *final(out),
    {
        self.attributes = attributes;
        self
    }
}

impl DirectOpenOptionsExt for OpenOptions {
    open spec fn access(&self) -> Access {
        Access { read: self.read, write: self.write, create: self.create }
    }

    /// Sets `FILE_FLAG_NO_BUFFERING` and `FILE_FLAG_WRITE_THROUGH` among the
    /// attributes and leaves everything else as it was.
    fn direct(&mut self) -> (out: &mut Self)
        ensures
            *out == old(self).with_direct(),
            out.has_attributes(FILE_FLAG_NO_BUFFERING),
            out.has_attributes(FILE_FLAG_WRITE_THROUGH),
    {
        proof {
            lemma_with_direct_sets(*self);
        }
        self.attributes = self.attributes | (FILE_FLAG_NO_BUFFERING | FILE_FLAG_WRITE_THROUGH);
        self
    }
}

impl DirectFileExt for OpenOptions {
    /// Fresh options with `create`, `write` and the two direct I/O
    /// attributes.
    fn direct_create() -> (options: Self)
        ensures
            options == (OpenOptions {
                read: false,
                write: true,
                create: true,
                attributes: 0xA000_0000,
            }),
    {
        let mut options = OpenOptions::new();
        options.create(true).write(true).direct();
        proof {
            lemma_direct_from_none();
        }
        options
    }

    /// Fresh options with `read` and the two direct I/O attributes.
    fn direct_open() -> (options: Self)
        ensures
            options == (OpenOptions {
                read: true,
                write: false,
                create: false,
                attributes: 0xA000_0000,
            }),
    {
        let mut options = OpenOptions::new();
        options.read(true).direct();
        proof {
            lemma_direct_from_none();
        }
        options
    }
}

/// The two attributes, set where none were set, make `0xA000_0000`.
proof fn lemma_direct_from_none()
    ensures
        0u32 | (FILE_FLAG_NO_BUFFERING | FILE_FLAG_WRITE_THROUGH) == 0xA000_0000u32,
{
    assert(0u32 | (FILE_FLAG_NO_BUFFERING | FILE_FLAG_WRITE_THROUGH) == 0xA000_0000u32)
        by (bit_vector);
}

/// Direct I/O that is turned on twice is turned on once.
pub proof fn lemma_with_direct_idempotent(options: OpenOptions)
    ensures
        options.with_direct().with_direct() == options.with_direct(),
{
    let before: u32 = options.attributes;
    let direct: u32 = FILE_FLAG_NO_BUFFERING | FILE_FLAG_WRITE_THROUGH;
    assert((before | direct) | direct == before | direct) by (bit_vector);
}

/// Direct I/O that is turned on has both attributes set.
pub proof fn lemma_with_direct_sets(options: OpenOptions)
    ensures
        options.with_direct().has_attributes(FILE_FLAG_NO_BUFFERING),
        options.with_direct().has_attributes(FILE_FLAG_WRITE_THROUGH),
{
    let before: u32 = options.attributes;
    let one: u32 = FILE_FLAG_NO_BUFFERING;
    let other: u32 = FILE_FLAG_WRITE_THROUGH;
    assert((before | (one | other)) & one == one) by (bit_vector);
    assert((before | (one | other)) & other == other) by (bit_vector);
}

/// Turning direct I/O on clears no attribute that was set before.
pub proof fn lemma_with_direct_keeps(options: OpenOptions, earlier: u32)
    requires
        options.has_attributes(earlier),
    ensures
        options.with_direct().has_attributes(earlier),
{
    let before: u32 = options.attributes;
    let direct: u32 = FILE_FLAG_NO_BUFFERING | FILE_FLAG_WRITE_THROUGH;
    assert((before | direct) & earlier == earlier) by (bit_vector)
        requires
            before & earlier == earlier,
    ;
}

} // verus!
