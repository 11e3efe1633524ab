use crate::data::Data;
use crate::error::Error;
use crate::format::Format;
use vstd::prelude::*;

verus! {

/// The decision the reconciliation engine takes after the backing file has
/// been read: given the optional fallback value, the bytes found, the
/// format and the invalid-data policy, it yields the authoritative result
/// and, when the file must be repaired, the bytes to write back.
///
/// - Bytes that decode are authoritative; nothing is written.
/// - Bytes that do not decode as invalid data fall back to the supplied
///   value, which is re-encoded and written — unless the policy denies
///   repair, in which case the decode error propagates.
/// - Any other decode error, or a decode error with no fallback at hand,
///   propagates; the file is never touched.
pub open spec fn reconcile_spec<T: Data>(
    current: Option<T>,
    bytes: Seq<u8>,
    format: Format,
    deny_invalid: bool,
) -> (Result<T, Error>, Option<Seq<u8>>) {
    match T::decode_spec(bytes, format) {
        Ok(v) => (Ok(v), None),
        Err(e) => match current {
            None => (Err(e), None),
            Some(c) => if e.is_invalid_data_spec() {
                if deny_invalid {
                    (Err(e), None)
                } else {
                    match c.encode_spec(format) {
                        Ok(b) => (Ok(c), Some(b)),
                        Err(ee) => (Err(ee), None),
                    }
                }
            } else {
                (Err(e), None)
            },
        },
    }
}

/// Decide what the authoritative value is after a read, and whether the
/// file must be rewritten, exactly as [`reconcile_spec`] states.
///
/// This is the whole of the engine's read-path policy; the surrounding
/// code (blocking or suspending) only performs the read before and the
/// optional write after.
pub fn reconcile<T: Data>(
    current: Option<T>,
    bytes: &Vec<u8>,
    format: Format,
    deny_invalid: bool,
) -> (r: (Result<T, Error>, Option<Vec<u8>>))
    ensures
        ({
            let (sres, swrite) = reconcile_spec(current, bytes@, format, deny_invalid);
            &&& r.0 == sres
            &&& match (r.1, swrite) {
                (None, None) => true,
                (Some(v), Some(s)) => v@ == s,
                _ => false,
            }
        }),
{
    match T::decode(bytes.as_slice(), format) {
        Ok(v) => (Ok(v), None),
        Err(e) => match current {
            None => (Err(e), None),
            Some(c) => {
                if e.is_invalid_data() {
                    if deny_invalid {
                        (Err(e), None)
                    } else {
                        match c.encode(format) {
                            Ok(b) => (Ok(c), Some(b)),
                            Err(ee) => (Err(ee), None),
                        }
                    }
                } else {
                    (Err(e), None)
                }
            },
        },
    }
}

/// What one synchronization pass guarantees, relating the contents of the
/// backing file before (`pre`) and after (`post`) to the result `r`.
///
/// With a value at hand and `overwrite` set, the file becomes that value's
/// encoding and the value is returned; otherwise the file is read and
/// [`reconcile_spec`] decides. Success is never owed — any storage
/// operation may fail with [`Error::Io`] — but every other outcome is
/// pinned down, and the file is only ever changed to the encoding that
/// `reconcile_spec` (or the overwrite) prescribes.
pub open spec fn sync_post<T: Data>(
    pre: Seq<u8>,
    post: Seq<u8>,
    format: Format,
    deny_invalid: bool,
    current: Option<T>,
    overwrite: bool,
    r: Result<T, Error>,
) -> bool {
    if current is Some && overwrite {
        let c = current->Some_0;
        &&& (c.encode_spec(format) matches Err(ee) ==> r == Err::<T, Error>(ee) && post == pre)
        &&& (r matches Ok(v) ==> v == c)
        &&& (r is Ok ==> (c.encode_spec(format) matches Ok(b) && post == b))
        &&& (r matches Err(e) ==> e == Error::Io || c.encode_spec(format) == Err::<Seq<u8>, Error>(e))
    } else {
        let (sres, swrite) = reconcile_spec(current, pre, format, deny_invalid);
        &&& (r is Ok ==> r == sres && (match swrite {
            None => post == pre,
            Some(b) => post == b,
        }))
        &&& (sres is Err ==> r is Err)
        &&& (r matches Err(e) ==> e == Error::Io || sres == Err::<T, Error>(e))
        &&& (swrite is None ==> post == pre)
    }
}

} // verus!
