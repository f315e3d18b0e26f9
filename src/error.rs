use vstd::prelude::*;

verus! {

/// Why a wire value could not be decoded.
#[derive(Debug, Clone, PartialEq, Eq)]
pub enum CodecError {
    /// Wrong byte length, or characters that are not hexadecimal digits.
    MalformedHex,
    /// A number out of range, negative where it may not be, or no number.
    InvalidInteger,
    /// A discriminant that names no variant; it carries the discriminant.
    UnknownVariant(String),
    /// A field without a default is absent; it carries the field's name.
    MissingRequiredField(String),
    /// A value has none of the shapes its type accepts.
    StructuralMismatch,
}

} // verus!
