use vstd::prelude::*;

verus! {

/// Selects the JSON encoding for a builder, optionally pretty-printed.
#[derive(Debug, Clone, Copy)]
pub struct Json {
    pub pretty: bool,
}

/// Selects the TOML encoding for a builder.
#[derive(Debug, Clone, Copy)]
pub struct Toml {}

/// The encoding a builder starts with when none is chosen.
pub type DefaultFormat = Json;

/// The encoding used for the backing file.
#[derive(Debug, Clone, Copy, PartialEq, Eq, Structural)]
pub enum Format {
    /// JSON, compact or pretty-printed.
    Json { pretty: bool },
    /// TOML.
    Toml,
}

/// Conversion from a builder's encoding selector to the [`Format`] the
/// engine works with.
pub trait ToFormat: Sized {
    /// The format this selector stands for.
    spec fn to_format_spec(self) -> Format;

    /// Produce the format this selector stands for.
    fn to_format(self) -> (r: Format)
        ensures
            r == self.to_format_spec(),
    ;
}

impl Default for Json {
    /// The default JSON selector is compact (not pretty-printed).
    fn default() -> (r: Self)
        ensures
            r == (Json { pretty: false }),
    {
        Json { pretty: false }
    }
}

impl Default for Toml {
    fn default() -> (r: Self)
        ensures
            r == (Toml {}),
    {
        Toml {}
    }
}

impl ToFormat for Json {
    open spec fn to_format_spec(self) -> Format {
        Format::Json { pretty: self.pretty }
    }

    fn to_format(self) -> (r: Format) {
        Format::Json { pretty: self.pretty }
    }
}

impl ToFormat for Toml {
    open spec fn to_format_spec(self) -> Format {
        Format::Toml
    }

    fn to_format(self) -> (r: Format) {
        Format::Toml
    }
}

impl Format {
    /// The format with pretty-printing switched on, where it applies.
    pub open spec fn set_pretty_spec(self) -> Format {
        match self {
            Format::Json { pretty } => Format::Json { pretty: true },
            Format::Toml => Format::Toml,
        }
    }

    /// Switch on pretty-printing, where the format supports it.
    pub fn set_pretty(&mut self)
        ensures
            *final(self) == old(self).set_pretty_spec(),
    {
        match self {
            Format::Json { pretty } => {
                *pretty = true;
            },
            Format::Toml => {},
        }
    }
}

} // verus!
