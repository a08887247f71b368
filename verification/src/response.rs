//! What a response means: the payload of a call that succeeded, or the
//! error that a failed call is classified as.

use crate::api::ReadFeedItemsResponse;
use crate::errors::{api_error, api_error_view, is_decoding_failure, ApiErrorData, Error};
use crate::models::FeedItem;
use serde_json::Error as JsonError;
use vstd::prelude::*;

verus! {

/// The status of a call that succeeded. Every other status, the other 2xx
/// and the 3xx among them, is a failure.
pub const STATUS_OK: u16 = 200;

/// Whether `r` is what a response with status `code` means, where decoding
/// the body as the expected payload gave `payload` and decoding it as an
/// error payload gave `error_data`.
///
/// With status 200 the payload decides: it is the result, and a body that is
/// no payload is a `Deserialization` error with the decoder's message. With
/// any other status the result is an error: `DetailedHttpCode` with the
/// message of the error payload where the body held one, and the bare
/// `HttpCode` where it did not.
pub open spec fn is_interpretation<T>(
    code: u16,
    payload: Result<T, JsonError>,
    error_data: Option<ApiErrorData>,
    r: Result<T, Error>,
) -> bool {
    if code == STATUS_OK {
        match payload {
            Ok(value) => r == Ok::<T, Error>(value),
            Err(failure) => r matches Err(error) && is_decoding_failure(failure, error),
        }
    } else {
        r matches Err(error) && error@ == api_error_view(code, error_data.deep_view())
    }
}

/// Turns the status of a response, and what decoding its body gave, into
/// the payload or the error of the call. `payload` is the body decoded as
/// the payload that the call expects, `error_data` the body decoded as an
/// error payload, `None` where it is none.
pub fn interpret_response<T>(
    code: u16,
    payload: Result<T, JsonError>,
    error_data: Option<ApiErrorData>,
) -> (r: Result<T, Error>)
    ensures
        is_interpretation(code, payload, error_data, r),
{
    if code == STATUS_OK {
        match payload {
            Ok(value) => Ok(value),
            Err(failure) => Err(Error::from(failure)),
        }
    } else {
        Err(api_error(code, error_data))
    }
}

/// The items that the decoded response of a read holds.
pub open spec fn feed_items_of(payload: Result<ReadFeedItemsResponse, JsonError>) -> Result<
    Vec<FeedItem>,
    JsonError,
> {
    match payload {
        Ok(response) => Ok(response.feed_items),
        Err(failure) => Err(failure),
    }
}

/// The items of a read, from the status of its response and what decoding
/// the body gave.
pub fn read_items_response(
    code: u16,
    payload: Result<ReadFeedItemsResponse, JsonError>,
    error_data: Option<ApiErrorData>,
) -> (r: Result<Vec<FeedItem>, Error>)
    ensures
        is_interpretation(code, feed_items_of(payload), error_data, r),
{
    let items = match payload {
        Ok(response) => Ok(response.feed_items),
        Err(failure) => Err(failure),
    };
    interpret_response(code, items, error_data)
}

} // verus!
