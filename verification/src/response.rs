//! What goes back to the client of the service, and the one rule on what
//! comes in.

use crate::error::AudioError;
use vstd::prelude::*;
use vstd::string::StringSliceAdditionalSpecFns;

verus! {

/// The envelope of every answer: either the data or the text of an error.
#[derive(Debug)]
pub struct ApiResponse<T> {
    pub success: bool,
    pub data: Option<T>,
    pub error: Option<String>,
}

impl<T> ApiResponse<T> {
    /// The answer that carries `data`.
    pub fn success(data: T) -> (response: Self)
        ensures
            response.success,
            response.data == Some(data),
            response.error is None,
    {
        ApiResponse { success: true, data: Some(data), error: None }
    }

    /// The answer that reports a failure with the text `message`.
    pub fn error(message: &str) -> (response: Self)
        ensures
            !response.success,
            response.data is None,
            response.error matches Some(text) && text@ == message@,
    {
        ApiResponse { success: false, data: None, error: Some(String::from_str(message)) }
    }

    /// The answer to a request that ended in `result`: the value, or the
    /// message of the error.
    pub fn from_result(result: Result<T, AudioError>) -> (response: Self)
        ensures
            match result {
                Ok(value) => response.success && response.data == Some(value) && response.error is None,
                Err(e) => !response.success && response.data is None && (response.error matches Some(
                    text,
                ) && text@ == e.message_text()),
            },
    {
        match result {
            Ok(value) => ApiResponse::success(value),
            Err(e) => {
                let text: String = e.message();
                ApiResponse { success: false, data: None, error: Some(text) }
            },
        }
    }
}

/// The bytes that the content type of an upload has to begin with.
pub open spec fn upload_content_type() -> Seq<u8> {
    "multipart/form-data".spec_bytes()
}

/// Whether a request with this content type is taken as an upload: the
/// content type has to begin with `multipart/form-data`.
pub fn accepts_upload(content_type: &str) -> (ok: bool)
    ensures
        ok <==> upload_content_type().is_prefix_of(content_type.spec_bytes()),
{
    let wanted: &[u8] = "multipart/form-data".as_bytes();
    let given: &[u8] = content_type.as_bytes();
    if given.len() < wanted.len() {
        return false;
    }
    let mut i: usize = 0;
    while i < wanted.len()
        invariant
            i <= wanted@.len() <= given@.len(),
            wanted@ == upload_content_type(),
            given@ == content_type.spec_bytes(),
            forall|j: int| 0 <= j < i ==> wanted@[j] == given@[j],
        decreases wanted@.len() - i,
    {
        if wanted[i] != given[i] {
            return false;
        }
        i += 1;
    }
    assert(wanted@ =~= given@.subrange(0, wanted@.len() as int));
    true
}

} // verus!
