use crate::blocking::VowFile;
use crate::data::Data;
use crate::engine::sync_post;
use crate::error::Error;
use crate::format::{DefaultFormat, Format, Json, ToFormat};
use crate::marker::{Async, Blocking, Just, Nothing, ToOption};
use crate::{Io, Vow};
use core::marker::PhantomData;
use vstd::prelude::*;

verus! {

/// Builder for [`Vow`].
///
/// By default it will use the JSON format without pretty printing, keep
/// the file's content when it already holds valid data, and silently
/// overwrite invalid content instead of failing on it.
///
/// `build` is only offered once the stored type is resolved with either a
/// real default value ([`VowBuilder::default`]) or the explicit promise
/// that the file already holds valid data ([`VowBuilder::with_type`]): no
/// handle is ever constructed without a resolvable initial value.
pub struct VowBuilder<T, F, A, Fo> {
    /// Where the backing file comes from.
    pub file: FileBuilder<F, A>,
    /// The default-value slot: [`Just`] a value or [`Nothing`].
    pub default: T,
    /// Whether to overwrite the file unconditionally on build.
    pub overwrite: bool,
    /// Whether invalid content fails the build instead of being repaired.
    pub deny_invalid: bool,
    /// The chosen encoding selector.
    pub format: Fo,
}

/// Where a builder's backing file comes from: a file the caller already
/// opened, or a path to open one at.
pub enum FileBuilder<F, A> {
    /// An already-open file.
    File(F),
    /// A path to open a file at, via [`VowFile::open`].
    Path(String, PhantomData<A>),
}

impl<F: VowFile> FileBuilder<F, Blocking> {
    /// Resolve the backing file: hand back the open one, or open the path.
    fn open(self) -> (r: Result<F, Error>)
        ensures
            self matches FileBuilder::File(f) ==> r == Ok::<F, Error>(f),
            r matches Err(e) ==> e == Error::Io,
    {
        match self {
            FileBuilder::File(file) => Ok(file),
            FileBuilder::Path(path, m) => F::open(path.as_str()),
        }
    }
}

impl<T, F> VowBuilder<Nothing<T>, F, Blocking, DefaultFormat> {
    /// Create a new blocking builder around an already-open file.
    pub fn new(file: F) -> (r: Self)
        ensures
            r.file == FileBuilder::<F, Blocking>::File(file),
            r.default == Nothing::<T>(PhantomData),
            !r.overwrite,
            !r.deny_invalid,
            r.format == (Json { pretty: false }),
    {
        VowBuilder {
            file: FileBuilder::File(file),
            default: Nothing(PhantomData),
            overwrite: false,
            deny_invalid: false,
            format: Json { pretty: false },
        }
    }

    /// Create a new blocking builder that opens a file at the given path.
    pub fn open(path: String) -> (r: Self)
        ensures
            r.file matches FileBuilder::Path(p, m) && p == path,
            r.default == Nothing::<T>(PhantomData),
            !r.overwrite,
            !r.deny_invalid,
            r.format == (Json { pretty: false }),
    {
        VowBuilder {
            file: FileBuilder::Path(path, PhantomData),
            default: Nothing(PhantomData),
            overwrite: false,
            deny_invalid: false,
            format: Json { pretty: false },
        }
    }
}

impl<T, F> VowBuilder<Nothing<T>, F, Async, DefaultFormat> {
    /// Create a new builder around an already-open file of the
    /// suspending execution model.
    pub fn new(file: F) -> (r: Self)
        ensures
            r.file == FileBuilder::<F, Async>::File(file),
            r.default == Nothing::<T>(PhantomData),
            !r.overwrite,
            !r.deny_invalid,
            r.format == (Json { pretty: false }),
    {
        VowBuilder {
            file: FileBuilder::File(file),
            default: Nothing(PhantomData),
            overwrite: false,
            deny_invalid: false,
            format: Json { pretty: false },
        }
    }

    /// Create a new builder of the suspending execution model that opens
    /// a file at the given path.
    pub fn open(path: String) -> (r: Self)
        ensures
            r.file matches FileBuilder::Path(p, m) && p == path,
            r.default == Nothing::<T>(PhantomData),
            !r.overwrite,
            !r.deny_invalid,
            r.format == (Json { pretty: false }),
    {
        VowBuilder {
            file: FileBuilder::Path(path, PhantomData),
            default: Nothing(PhantomData),
            overwrite: false,
            deny_invalid: false,
            format: Json { pretty: false },
        }
    }
}

impl<T, F, A> VowBuilder<Nothing<T>, F, A, DefaultFormat> {
    /// Set the type of the value without providing a default value.
    ///
    /// This is for when the file is known to hold a valid encoding of `U`
    /// already, so no fallback is needed.
    pub fn with_type<U>(self) -> (r: VowBuilder<Nothing<U>, F, A, DefaultFormat>)
        ensures
            r.file == self.file,
            r.default == Nothing::<U>(PhantomData),
            r.overwrite == self.overwrite,
            r.deny_invalid == self.deny_invalid,
            r.format == self.format,
    {
        VowBuilder {
            file: self.file,
            default: Nothing(PhantomData),
            overwrite: self.overwrite,
            deny_invalid: self.deny_invalid,
            format: self.format,
        }
    }

    /// Set the default value to fall back to when the file is empty or
    /// holds invalid content.
    pub fn default<U>(self, value: U) -> (r: VowBuilder<Just<U>, F, A, DefaultFormat>)
        ensures
            r.file == self.file,
            r.default == Just(value),
            r.overwrite == self.overwrite,
            r.deny_invalid == self.deny_invalid,
            r.format == self.format,
    {
        VowBuilder {
            default: Just(value),
            file: self.file,
            overwrite: self.overwrite,
            deny_invalid: self.deny_invalid,
            format: self.format,
        }
    }
}

impl<T, F, A> VowBuilder<T, F, A, DefaultFormat> {
    /// Fail the build when the file already exists and has invalid
    /// content, rather than silently repairing it.
    pub fn deny_invalid(self) -> (r: Self)
        ensures
            r.file == self.file,
            r.default == self.default,
            r.overwrite == self.overwrite,
            r.deny_invalid,
            r.format == self.format,
    {
        VowBuilder { deny_invalid: true, ..self }
    }

    /// Overwrite the file on build no matter whether it already exists or
    /// holds valid content.
    pub fn overwrite_local(self) -> (r: Self)
        ensures
            r.file == self.file,
            r.default == self.default,
            r.overwrite,
            r.deny_invalid == self.deny_invalid,
            r.format == self.format,
    {
        VowBuilder { overwrite: true, ..self }
    }

    /// Keep the file's content unless it does not exist or holds invalid
    /// content.
    pub fn keep_local(self) -> (r: Self)
        ensures
            r.file == self.file,
            r.default == self.default,
            !r.overwrite,
            r.deny_invalid == self.deny_invalid,
            r.format == self.format,
    {
        VowBuilder { overwrite: false, ..self }
    }
}

impl<T, F, A> VowBuilder<T, F, A, Json> {
    /// Output the data in JSON format, pretty-printed or compact.
    pub fn json(self, pretty: bool) -> (r: Self)
        ensures
            r.file == self.file,
            r.default == self.default,
            r.overwrite == self.overwrite,
            r.deny_invalid == self.deny_invalid,
            r.format == (Json { pretty }),
    {
        VowBuilder { format: Json { pretty }, ..self }
    }
}

/// What [`VowBuilder::build`] guarantees: on success the handle carries
/// the chosen format and policy, holds a value, and stands in the
/// [`sync_post`] relation of the first synchronization to the backing
/// file's initial contents — known exactly when the builder was given an
/// open file, existential when it opened a path itself. On failure no
/// handle is produced, and the error is either a storage failure or one
/// the first synchronization may raise: over the known initial contents
/// when the builder held an open file, over some initial contents when it
/// opened a path.
pub open spec fn build_post<T: Data, F: VowFile, A>(
    file: FileBuilder<F, A>,
    fmt: Format,
    deny_invalid: bool,
    default: Option<T>,
    overwrite: bool,
    r: Result<Vow<T, F>, Error>,
) -> bool {
    match r {
        Ok(vw) => {
            &&& vw.fmt() == fmt
            &&& vw.deny() == deny_invalid
            &&& vw.value is Some
            &&& match file {
                FileBuilder::File(f) => sync_post(
                    f.contents(),
                    vw.contents(),
                    fmt,
                    deny_invalid,
                    default,
                    overwrite,
                    Ok::<T, Error>(vw.value->Some_0),
                ),
                FileBuilder::Path(p, m) => exists|init: Seq<u8>|
                    sync_post(
                        init,
                        vw.contents(),
                        fmt,
                        deny_invalid,
                        default,
                        overwrite,
                        Ok::<T, Error>(vw.value->Some_0),
                    ),
            }
        },
        Err(e) => match file {
            FileBuilder::File(f) => e == Error::Io || exists|post: Seq<u8>|
                sync_post(
                    f.contents(),
                    post,
                    fmt,
                    deny_invalid,
                    default,
                    overwrite,
                    Err::<T, Error>(e),
                ),
            FileBuilder::Path(p, m) => e == Error::Io || exists|init: Seq<u8>, post: Seq<u8>|
                sync_post(
                    init,
                    post,
                    fmt,
                    deny_invalid,
                    default,
                    overwrite,
                    Err::<T, Error>(e),
                ),
        },
    }
}

impl<T, F, Fo> VowBuilder<T, F, Blocking, Fo> where
    T: ToOption,
    T::Inner: Data,
    F: VowFile,
    Fo: ToFormat,
 {
    /// Build the [`Vow`]: resolve the file, run the first synchronization
    /// with the assembled policies, and wrap the outcome. On any failure
    /// no handle is produced.
    pub fn build(self) -> (r: Result<Vow<T::Inner, F>, Error>)
        ensures
            build_post(
                self.file,
                self.format.to_format_spec(),
                self.deny_invalid,
                self.default.maybe_spec(),
                self.overwrite,
                r,
            ),
    {
        let format = self.format.to_format();
        let deny_invalid = self.deny_invalid;
        let overwrite = self.overwrite;
        let ghost from = self.file;
        let file = match self.file.open() {
            Ok(f) => f,
            Err(e) => {
                return Err(e);
            },
        };
        let mut io = Io::new(file, format, deny_invalid);
        let ghost init = io.file.contents();
        let default = self.default.maybe();
        match io.sync(default, overwrite) {
            Ok(value) => {
                let vw = Vow { value: Some(value), io };
                proof {
                    assert(sync_post(
                        init,
                        vw.contents(),
                        self.format.to_format_spec(),
                        self.deny_invalid,
                        self.default.maybe_spec(),
                        self.overwrite,
                        Ok::<T::Inner, Error>(vw.value->Some_0),
                    ));
                }
                Ok(vw)
            },
            Err(e) => {
                proof {
                    assert(sync_post(
                        init,
                        io.file.contents(),
                        format,
                        deny_invalid,
                        default,
                        overwrite,
                        Err::<T::Inner, Error>(e),
                    ));
                }
                Err(e)
            },
        }
    }
}

} // verus!
