use vstd::prelude::*;

verus! {

/// Why a PMX buffer failed to decode.
#[derive(Clone, Copy, Debug, PartialEq, Eq, Structural)]
pub enum PmxError {
    /// A read would consume bytes past the end of the buffer.
    UnexpectedEof,
    /// A discriminant byte (text encoding, index width, weight-deform tag,
    /// environment blend mode, toon reference) has no defined meaning.
    InvalidEnumValue,
    /// The raw bytes of a text field are not valid in the file's text encoding.
    TextDecodeError,
    /// The material submesh sizes do not partition the surface-index array.
    StructuralInconsistency,
}

impl PmxError {
    /// A short description, for callers that report errors to a user.
    pub fn describe(&self) -> (r: &'static str)
        ensures
            r@.len() > 0,
            match *self {
                PmxError::UnexpectedEof => r@ == "unexpected end of buffer"@,
                PmxError::InvalidEnumValue => r@ == "invalid enum discriminant"@,
                PmxError::TextDecodeError => r@
                    == "text field is not valid in the declared encoding"@,
                PmxError::StructuralInconsistency => r@
                    == "material surface counts do not partition the surface array"@,
            },
    {
        proof {
            reveal_strlit("unexpected end of buffer");
            reveal_strlit("invalid enum discriminant");
            reveal_strlit("text field is not valid in the declared encoding");
            reveal_strlit("material surface counts do not partition the surface array");
        }
        match *self {
            PmxError::UnexpectedEof => "unexpected end of buffer",
            PmxError::InvalidEnumValue => "invalid enum discriminant",
            PmxError::TextDecodeError => "text field is not valid in the declared encoding",
            PmxError::StructuralInconsistency => "material surface counts do not partition the surface array",
        }
    }
}

} // verus!
