use crate::blocking::VowFile;
use crate::builder::{build_post, FileBuilder, VowBuilder};
use crate::data::Data;
use crate::error::Error;
use crate::format::{DefaultFormat, Format, Json};
use crate::marker::{Blocking, Nothing};
use crate::Vow;
use core::marker::PhantomData;
use vstd::prelude::*;

verus! {

/// What every mutation (`set`, `map`, `update`) guarantees once the new
/// value `nv` has been produced: on success both memory and file hold
/// `nv`; on failure the value is left absent, the error is the encoder's
/// or a storage failure, and an encoder failure leaves the file untouched.
pub open spec fn mutate_post<T: Data, F: VowFile>(
    pre: Vow<T, F>,
    post: Vow<T, F>,
    nv: T,
    r: Result<(), Error>,
) -> bool {
    &&& post.fmt() == pre.fmt()
    &&& post.deny() == pre.deny()
    &&& (r is Ok ==> post.value == Some(nv))
    &&& (r is Ok ==> (nv.encode_spec(pre.fmt()) matches Ok(b) && post.contents() == b))
    &&& (nv.encode_spec(pre.fmt()) matches Err(ee) ==> r == Err::<(), Error>(ee)
        && post.contents() == pre.contents())
    &&& (r matches Err(e) ==> post.value is None && (e == Error::Io
        || nv.encode_spec(pre.fmt()) == Err::<Seq<u8>, Error>(e)))
}

impl<T, F: VowFile> Vow<T, F> {
    /// The bytes the backing file holds.
    pub open spec fn contents(&self) -> Seq<u8> {
        self.io.file.contents()
    }

    /// The encoding of the backing file.
    pub open spec fn fmt(&self) -> Format {
        self.io.format
    }

    /// Whether invalid file content fails a synchronization instead of
    /// being repaired.
    pub open spec fn deny(&self) -> bool {
        self.io.deny_invalid
    }

    /// Get the value. The value is present unless a synchronization
    /// failed and left the handle without one; calling `get` then is a
    /// contract violation, so it is ruled out here.
    pub fn get(&self) -> (r: &T)
        requires
            self.value is Some,
        ensures
            Some(*r) == self.value,
    {
        self.value.as_ref().unwrap()
    }

    /// Take the value out, leaving the handle without one.
    pub(crate) fn take(&mut self) -> (r: T)
        requires
            old(self).value is Some,
        ensures
            Some(r) == old(self).value,
            final(self).value is None,
            final(self).io == old(self).io,
    {
        self.value.take().unwrap()
    }
}

impl<T: Data, F: VowFile> Vow<T, F> {
    /// Set the value: it replaces the stored one wholesale and is written
    /// to the backing file before the call returns.
    pub fn set(&mut self, value: T) -> (r: Result<(), Error>)
        ensures
            mutate_post(*old(self), *final(self), value, r),
    {
        self.value = None;
        match self.io.sync(Some(value), true) {
            Ok(v) => {
                self.value = Some(v);
                Ok(())
            },
            Err(e) => Err(e),
        }
    }

    /// Map the value: apply `f` to the stored value and persist the
    /// result. On failure the old value is not restored.
    pub fn map<U>(&mut self, f: U) -> (r: Result<(), Error>) where U: FnOnce(T) -> T
        requires
            old(self).value is Some,
            call_requires(f, (old(self).value->Some_0,)),
        ensures
            exists|nv: T|
                #[trigger] call_ensures(f, (old(self).value->Some_0,), nv)
                && mutate_post(*old(self), *final(self), nv, r),
    {
        let val = f(self.take());
        self.set(val)
    }

    /// Update the value: like [`Vow::map`], producing the new value from
    /// the stored one and persisting it before the call returns.
    pub fn update<U>(&mut self, f: U) -> (r: Result<(), Error>) where U: FnOnce(T) -> T
        requires
            old(self).value is Some,
            call_requires(f, (old(self).value->Some_0,)),
        ensures
            exists|nv: T|
                #[trigger] call_ensures(f, (old(self).value->Some_0,), nv)
                && mutate_post(*old(self), *final(self), nv, r),
    {
        let val = f(self.take());
        self.set(val)
    }

    /// Force reload the value: discard what is in memory and re-read the
    /// file, with no default and no repair, propagating any failure.
    pub fn force_reload(&mut self) -> (r: Result<(), Error>)
        ensures
            final(self).fmt() == old(self).fmt(),
            final(self).deny() == old(self).deny(),
            final(self).contents() == old(self).contents(),
            r is Ok ==> (T::decode_spec(old(self).contents(), old(self).fmt()) matches Ok(v)
                && final(self).value == Some(v)),
            T::decode_spec(old(self).contents(), old(self).fmt()) is Err ==> r is Err,
            r matches Err(e) ==> final(self).value is None && (e == Error::Io
                || T::decode_spec(old(self).contents(), old(self).fmt()) == Err::<T, Error>(e)),
    {
        self.value = None;
        let cur: Option<T> = None;
        match self.io.sync(cur, false) {
            Ok(v) => {
                self.value = Some(v);
                Ok(())
            },
            Err(e) => Err(e),
        }
    }

    /// Create a new [`Vow`] with content stored in `file`, with the
    /// default policies and no default value.
    ///
    /// This fails if the file does not already hold valid data.
    pub fn new(file: F) -> (r: Result<Self, Error>)
        ensures
            build_post(
                FileBuilder::<F, Blocking>::File(file),
                Format::Json { pretty: false },
                false,
                None::<T>,
                false,
                r,
            ),
    {
        VowBuilder::<Nothing<T>, F, Blocking, DefaultFormat>::new(file).build()
    }

    /// Create a builder that opens a file at the given path when built.
    pub fn open(path: String) -> (r: VowBuilder<Nothing<T>, F, Blocking, DefaultFormat>)
        ensures
            r.file matches FileBuilder::Path(p, m) && p == path,
            r.default == Nothing::<T>(PhantomData),
            !r.overwrite,
            !r.deny_invalid,
            r.format == (Json { pretty: false }),
    {
        VowBuilder::<Nothing<T>, F, Blocking, DefaultFormat>::open(path)
    }

    /// Create a new builder for [`Vow`] around an already-open file.
    pub fn builder(file: F) -> (r: VowBuilder<Nothing<T>, F, Blocking, DefaultFormat>)
        ensures
            r.file == FileBuilder::<F, Blocking>::File(file),
            r.default == Nothing::<T>(PhantomData),
            !r.overwrite,
            !r.deny_invalid,
            r.format == (Json { pretty: false }),
    {
        VowBuilder::<Nothing<T>, F, Blocking, DefaultFormat>::new(file)
    }

    /// Flush the backing file's write buffers without changing the value.
    pub fn flush(&mut self) -> (r: Result<(), Error>)
        ensures
            final(self).value == old(self).value,
            final(self).fmt() == old(self).fmt(),
            final(self).deny() == old(self).deny(),
            final(self).contents() == old(self).contents(),
            r matches Err(e) ==> e == Error::Io,
    {
        self.io.file.flush()
    }
}

} // verus!
