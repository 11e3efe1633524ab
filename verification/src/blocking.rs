use crate::data::Data;
use crate::engine::{reconcile, sync_post};
use crate::error::Error;
use crate::marker::Blocking;
use crate::Io;
use vstd::prelude::*;

verus! {

/// The contents of a file after its length is set to `n`: truncated when
/// shrinking, zero-padded when growing.
pub open spec fn set_len_spec(s: Seq<u8>, n: nat) -> Seq<u8> {
    if n <= s.len() {
        s.take(n as int)
    } else {
        s + Seq::new((n - s.len()) as nat, |i: int| 0u8)
    }
}

/// Low-level capability set for synchronous file operations.
///
/// A backing store is modelled by the byte sequence it holds, `contents`.
/// Any operation may fail with [`Error::Io`]; reading and flushing never
/// change the contents, and a failed read leaves them as they were.
/// Implementations outside this crate (a real file, say) must behave as
/// these contracts state; an in-memory store that provably does is
/// [`crate::MemFile`].
pub trait VowFile: Sized {
    /// The bytes the file currently holds.
    spec fn contents(&self) -> Seq<u8>;

    /// Open a file at the given path, creating it when absent, for reading
    /// and writing, never truncating what is there.
    fn open(path: &str) -> (r: Result<Self, Error>)
        ensures
            r matches Err(e) ==> e == Error::Io,
    ;

    /// Read the entire file, appending its contents to `buf`.
    fn read_to_end(&mut self, buf: &mut Vec<u8>) -> (r: Result<(), Error>)
        ensures
            final(self).contents() == old(self).contents(),
            r is Ok ==> final(buf)@ == old(buf)@ + old(self).contents(),
            r matches Err(e) ==> e == Error::Io,
    ;

    /// Write the entire buffer at the end of the file.
    fn write_all(&mut self, buf: &[u8]) -> (r: Result<(), Error>)
        ensures
            r is Ok ==> final(self).contents() == old(self).contents() + buf@,
            r matches Err(e) ==> e == Error::Io,
    ;

    /// Set the length of the file: shrink by truncating, grow by
    /// zero-padding.
    fn set_len(&mut self, len: u64) -> (r: Result<(), Error>)
        ensures
            r is Ok ==> final(self).contents() == set_len_spec(old(self).contents(), len as nat),
            r matches Err(e) ==> e == Error::Io,
    ;

    /// Flush any buffered writes down to the store.
    fn flush(&mut self) -> (r: Result<(), Error>)
        ensures
            final(self).contents() == old(self).contents(),
            r matches Err(e) ==> e == Error::Io,
    ;
}

impl<F: VowFile> Io<F, Blocking> {
    /// Truncate the file and write `bytes`, so that they become its whole
    /// contents.
    fn write_encoded(&mut self, bytes: &Vec<u8>) -> (r: Result<(), Error>)
        ensures
            final(self).format == old(self).format,
            final(self).deny_invalid == old(self).deny_invalid,
            r is Ok ==> final(self).file.contents() == bytes@,
            r matches Err(e) ==> e == Error::Io,
    {
        match self.file.set_len(0) {
            Err(e) => Err(e),
            Ok(()) => match self.file.write_all(bytes.as_slice()) {
                Err(e) => Err(e),
                Ok(()) => {
                    proof {
                        assert(self.file.contents() =~= bytes@);
                    }
                    Ok(())
                },
            },
        }
    }

    /// One synchronization pass: with `overwrite` and a value at hand,
    /// serialize it and rewrite the file; otherwise read the file and let
    /// [`reconcile`](crate::reconcile) decide, repairing the file when its
    /// policy says so. The outcome is exactly what
    /// [`sync_post`](crate::sync_post) states.
    pub fn sync<T: Data>(&mut self, current: Option<T>, overwrite: bool) -> (r: Result<T, Error>)
        ensures
            final(self).format == old(self).format,
            final(self).deny_invalid == old(self).deny_invalid,
            sync_post(
                old(self).file.contents(),
                final(self).file.contents(),
                old(self).format,
                old(self).deny_invalid,
                current,
                overwrite,
                r,
            ),
    {
        self.buf.clear();

        match (current, overwrite) {
            (Some(c), true) => match c.encode(self.format) {
                Err(e) => Err(e),
                Ok(b) => match self.write_encoded(&b) {
                    Err(e) => Err(e),
                    Ok(()) => Ok(c),
                },
            },
            (cur, _) => match self.file.read_to_end(&mut self.buf) {
                Err(e) => Err(e),
                Ok(()) => {
                    let (res, to_write) = reconcile(cur, &self.buf, self.format, self.deny_invalid);
                    match to_write {
                        Some(b) => match self.write_encoded(&b) {
                            Err(e) => Err(e),
                            Ok(()) => res,
                        },
                        None => res,
                    }
                },
            },
        }
    }
}

} // verus!
