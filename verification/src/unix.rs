//! Direct I/O on Unix: the `O_DIRECT` flag of `open`.
//!
//! The flag's value belongs to the target's C library and differs from one
//! architecture to the next, so it is read from the `libc` crate and never
//! written down here. What is said of [`OpenOptions::direct`] therefore holds
//! for whatever positive value `libc` gives; [`OpenOptions::direct_with`]
//! says exactly what is done with a given value.

use vstd::prelude::*;
use crate::{Access, DirectFileExt, DirectOpenOptionsExt};

verus! {

/// Size, in bytes, to which the start of a data buffer is aligned.
pub const ALIGN_SIZE: usize = 4096;

/// Smallest block, in bytes, that is read or written.
pub const BLOCK_SIZE: usize = 4096;

/// How a file is to be opened on Unix.
#[derive(Clone, Copy, Debug, PartialEq, Eq, Structural)]
pub struct OpenOptions {
    /// The file is opened for reading.
    pub read: bool,
    /// The file is opened for writing.
    pub write: bool,
    /// The file is created if it does not exist.
    pub create: bool,
    /// Bits that are passed on in the `flags` argument of `open`.
    pub custom_flags: i32,
}

impl OpenOptions {
    /// These options with the bits of `flags` set among the custom flags.
    pub open spec fn with_flags(self, flags: i32) -> Self {
        OpenOptions { custom_flags: self.custom_flags | flags, ..self }
    }

    /// Whether every bit of `flags` is set among the custom flags.
    pub open spec fn has_flags(self, flags: i32) -> bool {
        self.custom_flags & flags == flags
    }

    /// Options with nothing set.
    pub fn new() -> (options: Self)
        ensures
            options == (OpenOptions {
                read: false,
                write: false,
                create: false,
                custom_flags: 0,
            }),
    {
        OpenOptions { read: false, write: false, create: false, custom_flags: 0 }
    }

    /// Sets whether the file is opened for reading.
    pub fn read(&mut self, read: bool) -> (out: &mut Self)
        ensures
            *out == (OpenOptions { read, ..*old(self) }),
            *final(self) == *final(out),
    {
        self.read = read;
        self
    }

    /// Sets whether the file is opened for writing.
    pub fn write(&mut self, write: bool) -> (out: &mut Self)
        ensures
            *out == (OpenOptions { write, ..*old(self) }),
            *final(self) == *final(out),
    {
        self.write = write;
        self
    }

    /// Sets whether the file is created if it does not exist.
    pub fn create(&mut self, create: bool) -> (out: &mut Self)
        ensures
            *out == (OpenOptions { create, ..*old(self) }),
            *final(self) == *final(out),
    {
        self.create = create;
        self
    }

    /// Replaces the custom flags by `flags`.
    pub fn custom_flags(&mut self, flags: i32) -> (out: &mut Self)
        ensures
            *out == (OpenOptions { custom_flags: flags, ..*old(self) }),
            *final(self) == *final(out),
    {
        self.custom_flags = flags;
        self
    }

    /// Turns direct I/O on where `flag` is the platform's direct I/O flag:
    /// sets the bits of `flag` among the custom flags and leaves everything
    /// else as it was.
    pub fn direct_with(&mut self, flag: i32) -> (out: &mut Self)
        ensures
            *out == old(self).with_flags(flag),
            *final(self) == *final(out),
    {
        self.custom_flags = self.custom_flags | flag;
        self
    }
}

/// Reads `libc::O_DIRECT`, the target's direct I/O flag for `open`.
///
/// Taken on trust: the value is positive. `libc` writes the constant down
/// once per target, each time as a literal with one bit set below the sign
/// bit; which bit it is depends on the target, so no more is said of it.
#[verifier::external_body]
fn o_direct() -> (flag: i32)
    ensures
        flag > 0,
{
    libc::O_DIRECT
}

impl DirectOpenOptionsExt for OpenOptions {
    open spec fn access(&self) -> Access {
        Access { read: self.read, write: self.write, create: self.create }
    }

    /// Sets `O_DIRECT` among the custom flags: what [`Self::direct_with`]
    /// does with the positive value that `libc` gives for the flag.
    ///
    /// So the custom flags are not zero afterwards, whatever they were.
    fn direct(&mut self) -> (out: &mut Self)
        ensures
            exists|flag: i32| flag > 0 && *out == #[trigger] old(self).with_flags(flag),
            out.custom_flags != 0,
    {
        let flag: i32 = o_direct();
        proof {
            lemma_with_flags_sets(*self, flag);
        }
        self.direct_with(flag)
    }
}

impl DirectFileExt for OpenOptions {
    /// Fresh options with `create`, `write` and `O_DIRECT`: the custom
    /// flags are the positive value that `libc` gives for the flag.
    fn direct_create() -> (options: Self)
        ensures
            !options.read && options.write && options.create,
            options.custom_flags > 0,
    {
        let mut options = OpenOptions::new();
        options.create(true).write(true).direct();
        proof {
            lemma_flags_from_none();
        }
        options
    }

    /// Fresh options with `read` and `O_DIRECT`: the custom flags are the
    /// positive value that `libc` gives for the flag.
    fn direct_open() -> (options: Self)
        ensures
            options.read && !options.write && !options.create,
            options.custom_flags > 0,
    {
        let mut options = OpenOptions::new();
        options.read(true).direct();
        proof {
            lemma_flags_from_none();
        }
        options
    }
}

/// Setting flags where none were set leaves exactly those flags.
proof fn lemma_flags_from_none()
    ensures
        forall|flags: i32| #[trigger] (0i32 | flags) == flags,
{
    assert forall|flags: i32| #[trigger] (0i32 | flags) == flags by {
        assert(0i32 | flags == flags) by (bit_vector);
    }
}

/// Flags that are set twice are set once: turning direct I/O on again
/// changes nothing.
pub proof fn lemma_with_flags_idempotent(options: OpenOptions, flags: i32)
    ensures
        options.with_flags(flags).with_flags(flags) == options.with_flags(flags),
{
    let before: i32 = options.custom_flags;
    assert((before | flags) | flags == before | flags) by (bit_vector);
}

/// Flags that are set are there afterwards, every bit of them. Where one
/// of them is not zero, neither are the custom flags.
pub proof fn lemma_with_flags_sets(options: OpenOptions, flags: i32)
    ensures
        options.with_flags(flags).has_flags(flags),
        flags != 0 ==> options.with_flags(flags).custom_flags != 0,
{
    let before: i32 = options.custom_flags;
    assert((before | flags) & flags == flags) by (bit_vector);
    assert(flags != 0 ==> (before | flags) != 0) by (bit_vector);
}

/// Setting flags clears none that was set before.
pub proof fn lemma_with_flags_keeps(options: OpenOptions, flags: i32, earlier: i32)
    requires
        options.has_flags(earlier),
    ensures
        options.with_flags(flags).has_flags(earlier),
{
    let before: i32 = options.custom_flags;
    assert((before | flags) & earlier == earlier) by (bit_vector)
        requires
            before & earlier == earlier,
    ;
}

} // verus!
