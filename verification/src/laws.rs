use crate::data::Data;
use crate::engine::sync_post;
use crate::error::Error;
use crate::format::Format;
use vstd::prelude::*;

verus! {

/// A value `v` persisted by an overwriting synchronization (as `set`
/// runs) is read back exactly by any later successful non-overwriting
/// synchronization of the same file: reopening a handle on the same path
/// yields `v` again, and the file is not rewritten.
pub proof fn lemma_set_then_reopen<T: Data>(
    v: T,
    fmt: Format,
    deny1: bool,
    deny2: bool,
    c1: Seq<u8>,
    c2: Seq<u8>,
    r1: Result<T, Error>,
    default2: Option<T>,
    c3: Seq<u8>,
    r2: Result<T, Error>,
)
    requires
        sync_post(c1, c2, fmt, deny1, Some(v), true, r1),
        r1 is Ok,
        sync_post(c2, c3, fmt, deny2, default2, false, r2),
        r2 is Ok,
    ensures
        r2 == Ok::<T, Error>(v),
        c3 == c2,
{
    v.lemma_roundtrip(fmt);
}

/// Opening at a path whose file is absent — so its contents are empty —
/// with default `d` and the `keep_local` policy yields `d`, and the file
/// afterward holds, and decodes to, `d`. This needs the empty file to
/// decode as invalid data, which every whole-document codec of a
/// structured value does.
pub proof fn lemma_default_on_missing<T: Data>(
    d: T,
    fmt: Format,
    post: Seq<u8>,
    r: Result<T, Error>,
)
    requires
        T::decode_spec(Seq::empty(), fmt) matches Err(e) && e.is_invalid_data_spec(),
        d.encode_spec(fmt) is Ok,
        sync_post(Seq::empty(), post, fmt, false, Some(d), false, r),
        r is Ok,
    ensures
        r == Ok::<T, Error>(d),
        post == d.encode_spec(fmt)->Ok_0,
        T::decode_spec(post, fmt) == Ok::<T, Error>(d),
{
    d.lemma_roundtrip(fmt);
}

/// A non-overwriting synchronization of a file that already decodes to
/// `v` yields `v` and never writes: whatever the default and the
/// invalid-data policy are, the file is left exactly as it was, even when
/// the synchronization fails.
pub proof fn lemma_keep_valid_content<T: Data>(
    v: T,
    default: Option<T>,
    fmt: Format,
    deny_invalid: bool,
    pre: Seq<u8>,
    post: Seq<u8>,
    r: Result<T, Error>,
)
    requires
        T::decode_spec(pre, fmt) == Ok::<T, Error>(v),
        sync_post(pre, post, fmt, deny_invalid, default, false, r),
    ensures
        post == pre,
        r is Ok ==> r == Ok::<T, Error>(v),
        r matches Err(e) ==> e == Error::Io,
{
}

/// A non-overwriting synchronization of a file whose bytes are classified
/// invalid, with default `d` and the repairing (non-deny) policy, yields
/// `d` on success and rewrites the file to the encoding of `d`: reading
/// can repair.
pub proof fn lemma_invalid_data_repair<T: Data>(
    d: T,
    fmt: Format,
    pre: Seq<u8>,
    post: Seq<u8>,
    r: Result<T, Error>,
)
    requires
        T::decode_spec(pre, fmt) matches Err(e) && e.is_invalid_data_spec(),
        d.encode_spec(fmt) is Ok,
        sync_post(pre, post, fmt, false, Some(d), false, r),
        r is Ok,
    ensures
        r == Ok::<T, Error>(d),
        post == d.encode_spec(fmt)->Ok_0,
{
}

/// The same synchronization under the `deny_invalid` policy fails — with
/// the classified decode error itself, unless the read failed first — and
/// the file is left unmodified.
pub proof fn lemma_invalid_data_denial<T: Data>(
    d: T,
    fmt: Format,
    pre: Seq<u8>,
    post: Seq<u8>,
    r: Result<T, Error>,
)
    requires
        T::decode_spec(pre, fmt) matches Err(e) && e.is_invalid_data_spec(),
        sync_post(pre, post, fmt, true, Some(d), false, r),
    ensures
        r is Err,
        post == pre,
        r matches Err(e) ==> e == Error::Io || T::decode_spec(pre, fmt) == Err::<T, Error>(e),
{
}

/// A successful overwriting synchronization (`overwrite_local`) with
/// value `d` yields `d` and rewrites the file to the encoding of `d`,
/// whatever the file held — existing valid content included.
pub proof fn lemma_overwrite_local<T: Data>(
    d: T,
    fmt: Format,
    deny_invalid: bool,
    pre: Seq<u8>,
    post: Seq<u8>,
    r: Result<T, Error>,
)
    requires
        sync_post(pre, post, fmt, deny_invalid, Some(d), true, r),
        r is Ok,
    ensures
        r == Ok::<T, Error>(d),
        d.encode_spec(fmt) is Ok,
        post == d.encode_spec(fmt)->Ok_0,
{
}

/// After an overwriting synchronization persisted the mutated value `m`
/// (as `update` runs), an immediately following successful `force_reload`
/// — a read with no default and no repair — observes exactly `m`: the
/// write landed on the file before the call returned.
pub proof fn lemma_mutation_persistence<T: Data>(
    m: T,
    fmt: Format,
    deny1: bool,
    deny2: bool,
    c1: Seq<u8>,
    c2: Seq<u8>,
    r1: Result<T, Error>,
    c3: Seq<u8>,
    r2: Result<T, Error>,
)
    requires
        sync_post(c1, c2, fmt, deny1, Some(m), true, r1),
        r1 is Ok,
        sync_post(c2, c3, fmt, deny2, None::<T>, false, r2),
        r2 is Ok,
    ensures
        r2 == Ok::<T, Error>(m),
        c3 == c2,
{
    m.lemma_roundtrip(fmt);
}

} // verus!



