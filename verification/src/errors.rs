use vstd::prelude::*;

verus! {

/// The failure conditions of the text-integrity engine.
///
/// Cryptographic rejection of a well-formed tag is never reported through
/// this type: it is the ordinary `false` result of a verification.
#[derive(Clone, Copy, Debug, PartialEq, Eq, Structural)]
pub enum TextError {
    /// The underlying byte source could not be read.
    IoError,
    /// A key buffer is shorter (or, for fixed-size keys, longer) than required.
    KeyLengthError,
    /// Key bytes do not decode to a valid point on the curve.
    KeyEncodingError,
    /// The base64 text carrying a tag is malformed.
    TagEncodingError,
    /// A decoded tag is not a well-formed signature structure.
    SignatureFormatError,
}

impl TextError {
    /// A short human-readable description of the error.
    pub fn message(&self) -> (r: &'static str)
        ensures
            r@ == match *self {
                TextError::IoError => "could not read byte source"@,
                TextError::KeyLengthError => "key has the wrong length"@,
                TextError::KeyEncodingError => "key bytes are not a valid curve point"@,
                TextError::TagEncodingError => "tag text is not valid base64"@,
                TextError::SignatureFormatError => "decoded tag is not a well-formed signature"@,
            },
    {
        match *self {
            TextError::IoError => "could not read byte source",
            TextError::KeyLengthError => "key has the wrong length",
            TextError::KeyEncodingError => "key bytes are not a valid curve point",
            TextError::TagEncodingError => "tag text is not valid base64",
            TextError::SignatureFormatError => "decoded tag is not a well-formed signature",
        }
    }
}

} // verus!
