use vstd::prelude::*;
use vstd::utf8::{decode_utf8, valid_utf8};

use crate::error::FlowerError;

verus! {

/// Number of header bytes in front of the firmware version text.
pub const VERSION_HEADER_LEN: usize = 2;

/// Relies on `String::from_utf8`: it accepts exactly the byte strings that
/// are valid UTF-8, and the text it returns is the one they encode.
#[verifier::external_body]
fn utf8_text(bytes: Vec<u8>) -> (r: Option<String>)
    ensures
        r is Some <==> valid_utf8(bytes@),
        r matches Some(s) ==> s@ == decode_utf8(bytes@),
{
    String::from_utf8(bytes).ok()
}

/// The battery level in percent: the first byte of the version/battery
/// characteristic's value. An empty value is a `DecodeError`.
pub fn battery_level(payload: &[u8]) -> (r: Result<u8, FlowerError>)
    ensures
        payload@.len() == 0 ==> r == Err::<u8, FlowerError>(FlowerError::DecodeError),
        payload@.len() > 0 ==> r == Ok::<u8, FlowerError>(payload@[0]),
{
    if payload.len() == 0 {
        Err(FlowerError::DecodeError)
    } else {
        Ok(payload[0])
    }
}

/// The bytes of the version/battery value that hold the firmware version.
pub open spec fn version_bytes(payload: Seq<u8>) -> Seq<u8> {
    payload.skip(VERSION_HEADER_LEN as int)
}

/// The firmware version: the version/battery characteristic's value from
/// its third byte on, read as UTF-8. A value shorter than the two header
/// bytes, or whose text is not valid UTF-8, is a `DecodeError`.
pub fn firmware_version(payload: &[u8]) -> (r: Result<String, FlowerError>)
    ensures
        r is Ok <==> payload@.len() >= VERSION_HEADER_LEN && valid_utf8(version_bytes(payload@)),
        r matches Ok(s) ==> s@ == decode_utf8(version_bytes(payload@)),
        r matches Err(e) ==> e == FlowerError::DecodeError,
{
    if payload.len() < VERSION_HEADER_LEN {
        return Err(FlowerError::DecodeError);
    }
    let mut text: Vec<u8> = Vec::new();
    let mut i: usize = VERSION_HEADER_LEN;
    while i < payload.len()
        invariant
            VERSION_HEADER_LEN <= i <= payload@.len(),
            text@ == payload@.subrange(VERSION_HEADER_LEN as int, i as int),
        decreases payload@.len() - i,
    {
        text.push(payload[i]);
        i = i + 1;
    }
    assert(text@ == version_bytes(payload@));
    match utf8_text(text) {
        Some(s) => Ok(s),
        None => Err(FlowerError::DecodeError),
    }
}

} // verus!
