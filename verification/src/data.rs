use crate::error::{Error, JsonCategory};
use crate::format::Format;
use vstd::prelude::*;

verus! {

/// A value that can be stored in a backing file: it can be turned into the
/// byte representation of a chosen [`Format`] and recovered from it.
///
/// The two spec functions fix, for each format, what bytes a value encodes
/// to (or which error encoding raises) and what value a byte sequence
/// decodes to (or which error decoding raises, with its classification).
/// Implementations outside this crate — typically backed by a JSON or TOML
/// library — must make their executable encode and decode agree with those
/// functions, and make decoding invert encoding; nothing here checks an
/// outside implementation, exactly as the engine cannot check what a user's
/// serializer does.
pub trait Data: Sized {
    /// The bytes this value encodes to under `format`, or the error the
    /// encoder raises when the value cannot be represented.
    spec fn encode_spec(&self, format: Format) -> Result<Seq<u8>, Error>;

    /// The value `bytes` decodes to under `format`, or the error the
    /// decoder raises, classified as [`Error::is_invalid_data`] tells.
    spec fn decode_spec(bytes: Seq<u8>, format: Format) -> Result<Self, Error>;

    /// Encode this value under `format`.
    fn encode(&self, format: Format) -> (r: Result<Vec<u8>, Error>)
        ensures
            match (r, self.encode_spec(format)) {
                (Ok(v), Ok(b)) => v@ == b,
                (Err(e), Err(se)) => e == se,
                _ => false,
            },
    ;

    /// Decode a value from `bytes` under `format`.
    fn decode(bytes: &[u8], format: Format) -> (r: Result<Self, Error>)
        ensures
            r == Self::decode_spec(bytes@, format),
    ;

    /// Decoding inverts encoding: a value that encodes successfully is
    /// recovered exactly from its own encoding.
    proof fn lemma_roundtrip(&self, format: Format)
        requires
            self.encode_spec(format) is Ok,
        ensures
            Self::decode_spec(self.encode_spec(format)->Ok_0, format) == Ok::<Self, Error>(*self),
    ;
}

/// The bytes of the JSON document `true`.
pub open spec fn json_true() -> Seq<u8> {
    seq![116u8, 114u8, 117u8, 101u8]
}

/// The bytes of the JSON document `false`.
pub open spec fn json_false() -> Seq<u8> {
    seq![102u8, 97u8, 108u8, 115u8, 101u8]
}

/// A minimal storable value, with its codec verified in this crate: a
/// `bool` is stored as the whole JSON document `true` or `false`. TOML
/// cannot hold a bare boolean document, so encoding under it fails, and
/// any bytes other than the two literals are classified invalid — an
/// empty file as an unexpected end of input, anything else as a syntax
/// error.
impl Data for bool {
    open spec fn encode_spec(&self, format: Format) -> Result<Seq<u8>, Error> {
        match format {
            Format::Json { pretty } => Ok(if *self {
                json_true()
            } else {
                json_false()
            }),
            Format::Toml => Err(Error::Toml),
        }
    }

    open spec fn decode_spec(bytes: Seq<u8>, format: Format) -> Result<bool, Error> {
        match format {
            Format::Json { pretty } => if bytes == json_true() {
                Ok(true)
            } else if bytes == json_false() {
                Ok(false)
            } else if bytes.len() == 0 {
                Err(Error::Json(JsonCategory::Eof))
            } else {
                Err(Error::Json(JsonCategory::Syntax))
            },
            Format::Toml => Err(Error::Toml),
        }
    }

    fn encode(&self, format: Format) -> (r: Result<Vec<u8>, Error>) {
        match format {
            Format::Json { pretty } => {
                let mut v: Vec<u8> = Vec::new();
                if *self {
                    v.push(116);
                    v.push(114);
                    v.push(117);
                    v.push(101);
                    proof {
                        assert(v@ =~= json_true());
                    }
                } else {
                    v.push(102);
                    v.push(97);
                    v.push(108);
                    v.push(115);
                    v.push(101);
                    proof {
                        assert(v@ =~= json_false());
                    }
                }
                Ok(v)
            },
            Format::Toml => Err(Error::Toml),
        }
    }

    fn decode(bytes: &[u8], format: Format) -> (r: Result<bool, Error>) {
        match format {
            Format::Json { pretty } => {
                if bytes.len() == 4 && bytes[0] == 116 && bytes[1] == 114 && bytes[2] == 117
                    && bytes[3] == 101 {
                    proof {
                        assert(bytes@ =~= json_true());
                    }
                    Ok(true)
                } else if bytes.len() == 5 && bytes[0] == 102 && bytes[1] == 97 && bytes[2] == 108
                    && bytes[3] == 115 && bytes[4] == 101 {
                    proof {
                        assert(bytes@ =~= json_false());
                    }
                    Ok(false)
                } else if bytes.len() == 0 {
                    proof {
                        assert(bytes@ != json_true());
                        assert(bytes@ != json_false());
                    }
                    Err(Error::Json(JsonCategory::Eof))
                } else {
                    proof {
                        assert(bytes@ != json_true());
                        assert(bytes@ != json_false());
                    }
                    Err(Error::Json(JsonCategory::Syntax))
                }
            },
            Format::Toml => Err(Error::Toml),
        }
    }

    proof fn lemma_roundtrip(&self, format: Format) {
        assert(json_true() != json_false());
    }
}

} // verus!
