use vstd::prelude::*;
use vstd::utf8::{decode_utf8, valid_utf8};

use crate::cluster_endpoint::{Endpoint, EndpointView};
use crate::error::{is_success, is_success_code, outcome_of, ErrorType, RawPointerError};

verus! {

/// One node record as the client library wrote it: the bytes of the address
/// text up to its terminator, or nothing where the record holds a null
/// address, and the port.
#[derive(Debug)]
pub struct RawNode {
    pub address: Option<Vec<u8>>,
    pub port: u16,
}

/// An array that the client library allocated and handed over: the reference
/// it wrote to the output location (zero is the null reference) and the
/// elements that were read from it, as many as the call counted. An element
/// that is `None` stands for a null entry.
#[derive(Debug)]
pub struct RawArray<T> {
    pub reference: usize,
    pub elements: Vec<T>,
}

/// What is left of a library-owned array once it has been dealt with: the
/// owned values, or the failure, and the reference that goes to the release
/// call of the client library. There is one slot for it, so an array is
/// released at most once; it is filled exactly when there is an array.
#[derive(Debug)]
pub struct Conversion<T> {
    pub outcome: Result<Vec<T>, ErrorType>,
    pub released: Option<usize>,
}

impl<T> RawArray<T> {
    /// The elements that the array holds: none behind the null reference.
    pub open spec fn present(&self) -> Seq<T> {
        if self.reference == 0 {
            Seq::empty()
        } else {
            self.elements@
        }
    }

    /// The reference to hand to the release call: none for the null
    /// reference, for which there is nothing to release.
    pub open spec fn to_release(&self) -> Option<usize> {
        if self.reference == 0 {
            None
        } else {
            Some(self.reference)
        }
    }
}

/// The text that a raw string holds: none for a null pointer and none for
/// bytes that are not well-formed UTF-8.
pub open spec fn text_of(raw: Option<Vec<u8>>) -> Option<Seq<char>> {
    match raw {
        None => None,
        Some(bytes) => if valid_utf8(bytes@) {
            Some(decode_utf8(bytes@))
        } else {
            None
        },
    }
}

/// The endpoint that a raw node record holds: none for a null record and none
/// where its address is no text.
pub open spec fn endpoint_of(raw: Option<RawNode>) -> Option<EndpointView> {
    match raw {
        None => None,
        Some(node) => match text_of(node.address) {
            None => None,
            Some(address) => Some(EndpointView { address, port: node.port as u32 }),
        },
    }
}

/// What is said of a raw string that holds no text.
pub open spec fn text_failure(raw: Option<Vec<u8>>) -> Seq<char> {
    match raw {
        None => "raw pointer to a string is null"@,
        Some(_) => "raw string is not well-formed UTF-8"@,
    }
}

/// What is said of a raw node record that holds no endpoint.
pub open spec fn endpoint_failure(raw: Option<RawNode>) -> Seq<char> {
    match raw {
        None => "raw pointer to a node is null"@,
        Some(node) => text_failure(node.address),
    }
}

/// Whether `i` is the place of the first of the `raw` strings that holds no
/// text.
pub open spec fn first_text_failure(raw: Seq<Option<Vec<u8>>>, i: int) -> bool {
    &&& 0 <= i < raw.len()
    &&& text_of(raw[i]).is_none()
    &&& forall|j: int| 0 <= j < i ==> (#[trigger] text_of(raw[j])).is_some()
}

/// Whether `i` is the place of the first of the `raw` records that holds no
/// endpoint.
pub open spec fn first_endpoint_failure(raw: Seq<Option<RawNode>>, i: int) -> bool {
    &&& 0 <= i < raw.len()
    &&& endpoint_of(raw[i]).is_none()
    &&& forall|j: int| 0 <= j < i ==> (#[trigger] endpoint_of(raw[j])).is_some()
}

/// The texts of all `raw` strings, in order; none if any one of them fails.
pub open spec fn texts_of(raw: Seq<Option<Vec<u8>>>) -> Option<Seq<Seq<char>>> {
    if forall|i: int| 0 <= i < raw.len() ==> (#[trigger] text_of(raw[i])).is_some() {
        Some(Seq::new(raw.len(), |i: int| text_of(raw[i]).unwrap()))
    } else {
        None
    }
}

/// The endpoints of all `raw` records, in order; none if any one of them fails.
pub open spec fn endpoints_of(raw: Seq<Option<RawNode>>) -> Option<Seq<EndpointView>> {
    if forall|i: int| 0 <= i < raw.len() ==> (#[trigger] endpoint_of(raw[i])).is_some() {
        Some(Seq::new(raw.len(), |i: int| endpoint_of(raw[i]).unwrap()))
    } else {
        None
    }
}

/// Whether the owned strings `owned` are the texts `texts`, one for one.
pub open spec fn holds_texts(owned: Seq<String>, texts: Seq<Seq<char>>) -> bool {
    &&& owned.len() == texts.len()
    &&& forall|i: int| 0 <= i < owned.len() ==> (#[trigger] owned[i])@ == texts[i]
}

/// Whether the owned endpoints `owned` are the endpoints `views`, one for one.
pub open spec fn holds_endpoints(owned: Seq<Endpoint>, views: Seq<EndpointView>) -> bool {
    &&& owned.len() == views.len()
    &&& forall|i: int| 0 <= i < owned.len() ==> (#[trigger] owned[i])@ == views[i]
}

/// `core::str::from_utf8`: the text that `bytes` encode where they are
/// well-formed UTF-8, and nothing where they are not.
#[verifier::external_body]
fn utf8_text(bytes: &[u8]) -> (r: Option<&str>)
    ensures
        r.is_some() == valid_utf8(bytes@),
        r matches Some(text) ==> text@ == decode_utf8(bytes@),
{
    core::str::from_utf8(bytes).ok()
}

/// Copies the text out of a raw string. Fails on a null pointer and on bytes
/// that are not well-formed UTF-8, and says which.
pub fn raw_pointer_to_string(raw: &Option<Vec<u8>>) -> (r: Result<String, RawPointerError>)
    ensures
        match r {
            Ok(text) => Some(text@) == text_of(*raw),
            Err(e) => text_of(*raw).is_none() && e.0@ == text_failure(*raw),
        },
{
    match raw {
        None => Err(RawPointerError("raw pointer to a string is null".to_owned())),
        Some(bytes) => match utf8_text(bytes.as_slice()) {
            Some(text) => Ok(text.to_owned()),
            None => Err(RawPointerError("raw string is not well-formed UTF-8".to_owned())),
        },
    }
}

/// Copies one node record into an endpoint of its own. Fails on a null
/// record, on a null address and on an address that is not well-formed text,
/// and says which.
pub fn raw_pointer_to_endpoint(raw: &Option<RawNode>) -> (r: Result<Endpoint, RawPointerError>)
    ensures
        match r {
            Ok(endpoint) => Some(endpoint@) == endpoint_of(*raw),
            Err(e) => endpoint_of(*raw).is_none() && e.0@ == endpoint_failure(*raw),
        },
{
    match raw {
        None => Err(RawPointerError("raw pointer to a node is null".to_owned())),
        Some(node) => {
            let port = node.port as u32;
            match raw_pointer_to_string(&node.address) {
                Ok(address) => Ok(Endpoint::new(address, port)),
                Err(e) => Err(e),
            }
        },
    }
}

/// Copies every node record of a library-owned array into an owned vector:
/// all of them, in order, or none. The null reference holds no records and
/// gives the empty vector. The failure is that of the first record that
/// fails.
pub fn raw_pointer_to_vector(array: &RawArray<Option<RawNode>>) -> (r: Result<
    Vec<Endpoint>,
    RawPointerError,
>)
    ensures
        r.is_ok() == endpoints_of(array.present()).is_some(),
        r matches Ok(owned) ==> holds_endpoints(owned@, endpoints_of(array.present()).unwrap()),
        r matches Err(e) ==> exists|i: int| #[trigger]
            first_endpoint_failure(array.present(), i) && e.0@ == endpoint_failure(
                array.present()[i],
            ),
{
    let mut output: Vec<Endpoint> = Vec::new();
    if array.reference == 0 {
        return Ok(output);
    }
    let count: usize = array.elements.len();
    let mut i: usize = 0;
    while i < count
        invariant
            i <= count,
            array.reference != 0,
            count == array.elements@.len(),
            output@.len() == i,
            forall|k: int| 0 <= k < i ==> (#[trigger] endpoint_of(array.elements@[k])).is_some(),
            forall|k: int|
                0 <= k < i ==> (#[trigger] output@[k])@ == endpoint_of(
                    array.elements@[k],
                ).unwrap(),
        decreases count - i,
    {
        match raw_pointer_to_endpoint(&array.elements[i]) {
            Ok(endpoint) => {
                output.push(endpoint);
            },
            Err(e) => {
                assert(first_endpoint_failure(array.present(), i as int));
                return Err(e);
            },
        }
        i += 1;
    }
    Ok(output)
}

/// Copies every string of a library-owned array into an owned vector: all of
/// them, in order, or none. The null reference holds no strings and gives the
/// empty vector. The failure is that of the first string that fails.
pub fn raw_pointer_to_string_vector(array: &RawArray<Option<Vec<u8>>>) -> (r: Result<
    Vec<String>,
    RawPointerError,
>)
    ensures
        r.is_ok() == texts_of(array.present()).is_some(),
        r matches Ok(owned) ==> holds_texts(owned@, texts_of(array.present()).unwrap()),
        r matches Err(e) ==> exists|i: int| #[trigger]
            first_text_failure(array.present(), i) && e.0@ == text_failure(array.present()[i]),
{
    let mut output: Vec<String> = Vec::new();
    if array.reference == 0 {
        return Ok(output);
    }
    let count: usize = array.elements.len();
    let mut i: usize = 0;
    while i < count
        invariant
            i <= count,
            array.reference != 0,
            count == array.elements@.len(),
            output@.len() == i,
            forall|k: int| 0 <= k < i ==> (#[trigger] text_of(array.elements@[k])).is_some(),
            forall|k: int|
                0 <= k < i ==> (#[trigger] output@[k])@ == text_of(array.elements@[k]).unwrap(),
        decreases count - i,
    {
        match raw_pointer_to_string(&array.elements[i]) {
            Ok(text) => {
                output.push(text);
            },
            Err(e) => {
                assert(first_text_failure(array.present(), i as int));
                return Err(e);
            },
        }
        i += 1;
    }
    Ok(output)
}

/// What becomes of the array of node records that a call handed over, given
/// the status of that call. On success every record is converted, and one
/// that fails makes the whole conversion fail as a local system error. On
/// failure nothing is converted and the status is reported. Either way the
/// array goes to the release call, once, unless its reference is null.
pub fn adapt_endpoints(status: i32, array: &RawArray<Option<RawNode>>) -> (r: Conversion<Endpoint>)
    ensures
        r.released == array.to_release(),
        !is_success_code(status) ==> r.outcome == Err::<Vec<Endpoint>, ErrorType>(
            outcome_of(status),
        ),
        is_success_code(status) ==> match endpoints_of(array.present()) {
            Some(views) => r.outcome matches Ok(owned) && holds_endpoints(owned@, views),
            None => r.outcome == Err::<Vec<Endpoint>, ErrorType>(ErrorType::ErrSystemLocal),
        },
{
    let released = if array.reference == 0 {
        None
    } else {
        Some(array.reference)
    };
    if !is_success(status) {
        return Conversion {
            outcome: Err(ErrorType::from_qdb_error_origin_t(status)),
            released,
        };
    }
    let outcome = match raw_pointer_to_vector(array) {
        Ok(owned) => Ok(owned),
        Err(e) => Err(ErrorType::from_qdb_error_origin_t(e.error_code())),
    };
    Conversion { outcome, released }
}

/// What becomes of the array of strings that a call handed over, given the
/// status of that call. On success every string is converted, and one that
/// fails makes the whole conversion fail as a local system error. On failure
/// nothing is converted and the status is reported. Either way the array goes
/// to the release call, once, unless its reference is null.
pub fn adapt_strings(status: i32, array: &RawArray<Option<Vec<u8>>>) -> (r: Conversion<String>)
    ensures
        r.released == array.to_release(),
        !is_success_code(status) ==> r.outcome == Err::<Vec<String>, ErrorType>(
            outcome_of(status),
        ),
        is_success_code(status) ==> match texts_of(array.present()) {
            Some(texts) => r.outcome matches Ok(owned) && holds_texts(owned@, texts),
            None => r.outcome == Err::<Vec<String>, ErrorType>(ErrorType::ErrSystemLocal),
        },
{
    let released = if array.reference == 0 {
        None
    } else {
        Some(array.reference)
    };
    if !is_success(status) {
        return Conversion {
            outcome: Err(ErrorType::from_qdb_error_origin_t(status)),
            released,
        };
    }
    let outcome = match raw_pointer_to_string_vector(array) {
        Ok(owned) => Ok(owned),
        Err(e) => Err(ErrorType::from_qdb_error_origin_t(e.error_code())),
    };
    Conversion { outcome, released }
}

} // verus!
