//! Reading a response body: either the success payload or the service's error, never
//! both, and the items of a list.
use crate::error::{remote_error_of, Error, RemoteError, Result};
use crate::json::{field, parsed_json, Json};
use vstd::prelude::*;

verus! {

/// What a parsed response `j` comes to: where it has an `error` member, the failure that
/// member describes (or a decode failure where it describes none); else `j` itself.
pub open spec fn envelope(j: Json, r: Result<Json>) -> bool {
    match field(j, "error"@) {
        None => r == Ok::<Json, Error>(j),
        Some(e) => match remote_error_of(e) {
            Some(x) => r matches Err(Error::Remote(y)) && y@ == x,
            None => r matches Err(Error::Decode(_)),
        },
    }
}

/// What a response body comes to: a decode failure where it is no JSON document, else
/// what its envelope comes to.
pub open spec fn body_outcome(body: Seq<char>, r: Result<Json>) -> bool {
    match parsed_json(body) {
        None => r matches Err(Error::Decode(_)),
        Some(j) => envelope(j, r),
    }
}

/// What a response body comes to for an operation whose success payload `of` reads
/// as a record: the record, the service's failure, or a decode failure.
pub open spec fn record_outcome<T, V>(
    body: Seq<char>,
    r: Result<T>,
    of: spec_fn(Json) -> Option<V>,
    view: spec_fn(T) -> V,
) -> bool {
    match parsed_json(body) {
        None => r matches Err(Error::Decode(_)),
        Some(j) => match field(j, "error"@) {
            Some(e) => match remote_error_of(e) {
                Some(x) => r matches Err(Error::Remote(y)) && y@ == x,
                None => r matches Err(Error::Decode(_)),
            },
            None => match of(j) {
                Some(v) => r matches Ok(t) && view(t) == v,
                None => r matches Err(Error::Decode(_)),
            },
        },
    }
}

/// Every item reads as a record.
pub open spec fn all_read<V>(items: Seq<Json>, of: spec_fn(Json) -> Option<V>) -> bool {
    forall|i: int| 0 <= i < items.len() ==> (#[trigger] of(items[i])) is Some
}

/// What a response body comes to for a list operation: the records of all its items,
/// in order (none where `items` is absent), the service's failure, or a decode failure.
pub open spec fn list_outcome<T, V>(
    body: Seq<char>,
    r: Result<Vec<T>>,
    of: spec_fn(Json) -> Option<V>,
    view: spec_fn(T) -> V,
) -> bool {
    match parsed_json(body) {
        None => r matches Err(Error::Decode(_)),
        Some(j) => match field(j, "error"@) {
            Some(e) => match remote_error_of(e) {
                Some(x) => r matches Err(Error::Remote(y)) && y@ == x,
                None => r matches Err(Error::Decode(_)),
            },
            None => match items_in(j) {
                Some(items) => if all_read(items, of) {
                    r matches Ok(v) && v@.map_values(view) == items.map_values(
                        |x: Json| of(x)->0,
                    )
                } else {
                    r matches Err(Error::Decode(_))
                },
                None => r matches Err(Error::Decode(_)),
            },
        },
    }
}

/// What a delete comes to. A body with an `error` member gives the failure it describes
/// (or a decode failure where it describes none), whatever the status. Otherwise a 2xx
/// status gives success, an empty or non-JSON body included, and any other status a
/// decode failure.
pub open spec fn delete_outcome(status: u16, body: Seq<char>, r: Result<()>) -> bool {
    let error = match parsed_json(body) {
        Some(j) => field(j, "error"@),
        None => None,
    };
    match error {
        Some(e) => match remote_error_of(e) {
            Some(x) => r matches Err(Error::Remote(y)) && y@ == x,
            None => r matches Err(Error::Decode(_)),
        },
        None => if 200 <= status <= 299 {
            r is Ok
        } else {
            r matches Err(Error::Decode(_))
        },
    }
}

/// Reads the response to a delete.
pub fn delete_result(status: u16, body: &str) -> (r: Result<()>)
    ensures
        delete_outcome(status, body@, r),
{
    let found = match Json::parse(body) {
        Some(j) => j.take("error"),
        None => None,
    };
    match found {
        Some(e) => match RemoteError::from_json(&e) {
            Some(x) => Err(Error::Remote(x)),
            None => Err(Error::Decode(String::from_str("malformed error object"))),
        },
        None => if 200 <= status && status <= 299 {
            Ok(())
        } else {
            Err(Error::Decode(String::from_str("a failed delete gave no error object")))
        },
    }
}

/// A response whose `error` object reads is the service's failure with that object's
/// code and message, never a decode failure, whatever record the operation expects.
pub proof fn lemma_error_object_is_remote<T, V>(
    body: Seq<char>,
    r: Result<T>,
    of: spec_fn(Json) -> Option<V>,
    view: spec_fn(T) -> V,
)
    requires
        record_outcome(body, r, of, view),
        parsed_json(body) matches Some(j) && field(j, "error"@) matches Some(e) && remote_error_of(
            e,
        ) is Some,
    ensures
        r matches Err(Error::Remote(y)) && Some(y@) == remote_error_of(
            field(parsed_json(body)->0, "error"@)->0,
        ),
{
}

/// Separates a success payload from the service's error.
pub fn into_success(j: Json) -> (r: Result<Json>)
    ensures
        envelope(j, r),
{
    let is_error = j.get("error").is_some();
    if is_error {
        let e = j.take("error");
        match e {
            Some(e) => match RemoteError::from_json(&e) {
                Some(x) => Err(Error::Remote(x)),
                None => Err(Error::Decode(String::from_str("malformed error object"))),
            },
            None => Err(Error::Decode(String::from_str("malformed error object"))),
        }
    } else {
        Ok(j)
    }
}

/// Parses a response body and separates a success payload from the service's error.
pub fn decode_body(body: &str) -> (r: Result<Json>)
    ensures
        body_outcome(body@, r),
{
    match Json::parse(body) {
        Some(j) => into_success(j),
        None => Err(Error::Decode(String::from_str("response body is not JSON"))),
    }
}

/// A response with an `error` member never gives a success payload, and one without it
/// never gives an error.
pub proof fn lemma_envelope_exclusive(j: Json, r: Result<Json>)
    requires
        envelope(j, r),
    ensures
        r is Ok <==> field(j, "error"@) is None,
        r is Err <==> field(j, "error"@) is Some,
{
}

/// The items of a list response: its `items` array, or none where the member is absent.
pub open spec fn items_in(j: Json) -> Option<Seq<Json>> {
    match field(j, "items"@) {
        None => Some(Seq::empty()),
        Some(Json::Array(items)) => Some(items@),
        _ => None,
    }
}

/// Takes the items out of a list response.
pub fn list_items(j: Json) -> (r: Result<Vec<Json>>)
    ensures
        match items_in(j) {
            Some(s) => r matches Ok(v) && v@ == s,
            None => r matches Err(Error::Decode(_)),
        },
{
    match j.take("items") {
        None => Ok(Vec::new()),
        Some(Json::Array(items)) => Ok(items),
        Some(_) => Err(Error::Decode(String::from_str("`items` is not an array"))),
    }
}

/// A list response without an `items` member lists nothing, and is no decode failure.
pub proof fn lemma_missing_items_is_empty(j: Json)
    requires
        field(j, "items"@) is None,
    ensures
        items_in(j) == Some(Seq::<Json>::empty()),
{
}

} // verus!
