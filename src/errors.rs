use vstd::prelude::*;

verus! {

#[verifier::external_type_specification]
#[verifier::external_body]
pub struct ExImageError(image::ImageError);

/// Every way an operation of this library can fail.
#[derive(Debug)]
pub enum OneOcrError {
    /// The image collaborator could not open or decode an input file.
    ImageOpenError(image::ImageError),
    /// A pixel buffer does not describe a well-formed RGBA image.
    ImageFormatError(String),
    /// The native module or one of its entry points could not be resolved.
    LibraryLoadError(String),
    /// The model file path could not be determined or handed to the native layer.
    ModelFileLoadError(String),
    /// The embedded model key could not be handed to the native layer.
    InvalidModelKey(String),
    /// A native call returned a nonzero status, or an output it promised was missing.
    OcrApiError { result: i32, message: String },
    /// Anything else.
    Other(String),
}

/// Status code carried by an `OcrApiError` when a native call reported success but handed
/// back an unusable output (a null bounding box, a negative count).
pub const BAD_OUTPUT: i32 = -1;

/// The error for a native call that reported success but handed back an unusable output.
pub fn bad_output(message: &str) -> (e: OneOcrError)
    ensures
        e matches OneOcrError::OcrApiError { result, message: m } && result == BAD_OUTPUT && m@
            == message@,
{
    OneOcrError::OcrApiError { result: BAD_OUTPUT, message: message.to_string() }
}

/// Translates the status of one native call: zero is success, anything else becomes an
/// `OcrApiError` carrying the code and the description of the operation that failed.
pub fn check_call(status: i32, context: &str) -> (r: Result<(), OneOcrError>)
    ensures
        status == 0 <==> r is Ok,
        status != 0 ==> (r matches Err(OneOcrError::OcrApiError { result, message }) && result
            == status && message@ == context@),
{
    if status == 0 {
        Ok(())
    } else {
        Err(OneOcrError::OcrApiError { result: status, message: context.to_string() })
    }
}

} // verus!
