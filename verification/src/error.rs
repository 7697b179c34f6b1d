//! Render errors.
//!
//! Every failure of the pipeline is one of these; color-resolution misses
//! are not errors (they fall back to default colors) and never surface.
use vstd::prelude::*;
use vstd::string::StringExecFns;

verus! {

/// A fatal render failure. No partial badge is ever returned.
#[derive(Clone, Copy, PartialEq, Eq, Structural, Debug)]
pub enum BadgeError {
    /// The required `status` option was empty. Raised before any font or
    /// layout work.
    ValidationError,
    /// The font bytes are not a parseable font container, the requested
    /// face index does not exist, or the face reports no usable
    /// units-per-em.
    FontParseError,
    /// A glyph query produced geometry outside the representable
    /// badge-space coordinate range; the render aborts rather than
    /// emitting a badge with missing or wrapped glyphs.
    OutlineError,
}

/// The description of a `ValidationError`.
pub open spec fn validation_msg() -> Seq<char> {
    "<status> must be non-empty string"@
}

/// The description of a `FontParseError`.
pub open spec fn font_parse_msg() -> Seq<char> {
    "Failed to parse font"@
}

/// The description of an `OutlineError`.
pub open spec fn outline_msg() -> Seq<char> {
    "glyph outline exceeds coordinate range"@
}

impl BadgeError {
    /// A human-readable description of the failure.
    pub fn message(&self) -> (r: String)
        ensures
            *self == BadgeError::ValidationError ==> r@ == validation_msg(),
            *self == BadgeError::FontParseError ==> r@ == font_parse_msg(),
            *self == BadgeError::OutlineError ==> r@ == outline_msg(),
    {
        match *self {
            BadgeError::ValidationError => String::from_str("<status> must be non-empty string"),
            BadgeError::FontParseError => String::from_str("Failed to parse font"),
            BadgeError::OutlineError => String::from_str("glyph outline exceeds coordinate range"),
        }
    }
}

} // verus!
