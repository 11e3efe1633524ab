//! Binds a structured value to a single backing file: the value is read
//! back from the file when a handle is opened and written out on every
//! mutation, with a small set of policies deciding how on-disk and
//! in-memory state are reconciled.

mod blocking;
mod builder;
mod data;
mod engine;
mod error;
mod format;
mod laws;
mod marker;
mod memfile;
mod shared;

pub use blocking::{set_len_spec, VowFile};
pub use builder::{build_post, FileBuilder, VowBuilder};
pub use data::{json_false, json_true, Data};
pub use engine::{reconcile, reconcile_spec, sync_post};
pub use error::{Error, JsonCategory, VowResult};
pub use format::{DefaultFormat, Format, Json, ToFormat, Toml};
pub use laws::{
    lemma_default_on_missing, lemma_invalid_data_denial, lemma_invalid_data_repair,
    lemma_keep_valid_content, lemma_mutation_persistence, lemma_overwrite_local,
    lemma_set_then_reopen,
};
pub use marker::{Async, Blocking, Just, Nothing, ToOption};
pub use memfile::MemFile;
pub use shared::mutate_post;

use core::marker::PhantomData;
use vstd::prelude::*;

verus! {

/// Initial capacity of the scratch buffer.
pub const BUF_SIZE: usize = 256;

/// The mathematical view of a file's or buffer's bytes, as the
/// specification members of [`Data`] and [`VowFile`] speak of them.
pub type Bytes = Seq<u8>;

/// Synchronously binds data to a file: the long-lived handle over the
/// stored value and its backing file.
#[derive(Debug)]
pub struct Vow<T, F> {
    /// The stored value; absent only after a failed synchronization.
    pub value: Option<T>,
    /// The engine state: file, scratch buffer and policies.
    pub io: Io<F, Blocking>,
}

/// Underlying file operations: the backing file, a reusable scratch
/// buffer, and the policies fixed at build time.
#[derive(Debug)]
pub struct Io<F, A> {
    /// The backing file.
    pub file: F,
    /// Scratch buffer recycled across synchronization calls.
    pub buf: Vec<u8>,
    /// The encoding of the backing file.
    pub format: Format,
    /// Marker for the execution model the file belongs to.
    pub asyncness: PhantomData<A>,
    /// Whether invalid file content fails the call instead of being
    /// silently repaired from the value at hand.
    pub deny_invalid: bool,
}

impl<F, A> Io<F, A> {
    /// Assemble the engine state around an open file.
    pub fn new(file: F, format: Format, deny_invalid: bool) -> (r: Self)
        ensures
            r.file == file,
            r.buf@ == Seq::<u8>::empty(),
            r.format == format,
            r.deny_invalid == deny_invalid,
    {
        Io {
            file,
            buf: Vec::with_capacity(BUF_SIZE),
            format,
            deny_invalid,
            asyncness: PhantomData,
        }
    }

    /// Take the scratch buffer out, cleared, leaving an empty one behind.
    pub fn take_buf(&mut self) -> (r: Vec<u8>)
        ensures
            r@ == Seq::<u8>::empty(),
            final(self).buf@ == Seq::<u8>::empty(),
            final(self).file == old(self).file,
            final(self).format == old(self).format,
            final(self).deny_invalid == old(self).deny_invalid,
    {
        let mut buf: Vec<u8> = Vec::new();
        core::mem::swap(&mut buf, &mut self.buf);
        buf.clear();
        buf
    }
}

} // verus!
