//! From the body of a successful response to a typed result. Reading JSON
//! is left to a decoder of the caller; what the decoder found is judged here.
use crate::error::ApiError;
use vstd::prelude::*;
use vstd::string::StringExecFns;

verus! {

/// The diagnostic for an array without elements.
pub open spec fn empty_array_text() -> Seq<char> {
    "expected an array with at least one element"@
}

/// How a decoded document is judged: the value itself, or the decoder's
/// diagnostic as a `DecodeError`.
pub open spec fn is_value<T>(res: Result<T, ApiError>, decoded: Result<T, String>) -> bool {
    match decoded {
        Ok(value) => res == Ok::<T, ApiError>(value),
        Err(reason) => res == Err::<T, ApiError>(ApiError::DecodeError(reason)),
    }
}

/// How a decoded array is judged: its first element, whatever follows it;
/// a `DecodeError` for an array without elements and for a diagnostic.
pub open spec fn is_first<T>(res: Result<T, ApiError>, decoded: Result<Vec<T>, String>) -> bool {
    match decoded {
        Ok(items) => if items@.len() > 0 {
            res == Ok::<T, ApiError>(items@[0])
        } else {
            &&& res matches Err(ApiError::DecodeError(reported))
            &&& reported@ == empty_array_text()
        },
        Err(reason) => res == Err::<T, ApiError>(ApiError::DecodeError(reason)),
    }
}

/// Judges what a decoder made of a body that holds one document.
pub fn value_of<T>(decoded: Result<T, String>) -> (res: Result<T, ApiError>)
    ensures
        is_value(res, decoded),
{
    match decoded {
        Ok(value) => Ok(value),
        Err(reason) => Err(ApiError::DecodeError(reason)),
    }
}

/// Judges what a decoder made of a body that holds an array.
pub fn first_of<T>(decoded: Result<Vec<T>, String>) -> (res: Result<T, ApiError>)
    ensures
        is_first(res, decoded),
{
    match decoded {
        Ok(items) => {
            let mut items = items;
            if items.len() > 0 {
                Ok(items.swap_remove(0))
            } else {
                Err(
                    ApiError::DecodeError(
                        String::from_str("expected an array with at least one element"),
                    ),
                )
            }
        },
        Err(reason) => Err(ApiError::DecodeError(reason)),
    }
}

/// Decodes `body` as one document.
pub fn decode<T, D>(body: String, decoder: D) -> (res: Result<T, ApiError>) where
    D: FnOnce(String) -> Result<T, String>,

    requires
        call_requires(decoder, (body,)),
    ensures
        exists|decoded: Result<T, String>| #[trigger]
            call_ensures(decoder, (body,), decoded) && is_value(res, decoded),
{
    value_of(decoder(body))
}

/// Decodes `body` as an array and unwraps its first element.
pub fn decode_single<T, D>(body: String, decoder: D) -> (res: Result<T, ApiError>) where
    D: FnOnce(String) -> Result<Vec<T>, String>,

    requires
        call_requires(decoder, (body,)),
    ensures
        exists|decoded: Result<Vec<T>, String>| #[trigger]
            call_ensures(decoder, (body,), decoded) && is_first(res, decoded),
{
    first_of(decoder(body))
}

} // verus!
