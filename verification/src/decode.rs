//! The response decoder: verified conversions from the parsed JSON
//! model into the typed domain objects, one relation per wire shape.
//!
//! Strict decoders fail the whole call on any shape mismatch; the
//! tolerant device decoder (enumeration only) turns each array item
//! into its own `Result`.

use vstd::prelude::*;

use crate::b64::b64_decode;
use crate::b64::b64_encode;
use crate::b64::spec_b64_decode;
use crate::b64::spec_b64_encode;
use crate::error::Error;
use crate::json::Json;
use crate::json::obj_get;
use crate::json::spec_obj_get;
use crate::types::HWIAddress;
use crate::types::HWIDescriptor;
use crate::types::HWIDevice;
use crate::types::HWIDeviceInternal;
use crate::types::HWIExtendedPubKey;
use crate::types::HWIKeyPoolElement;
use crate::types::HWIPartiallySignedTransaction;
use crate::types::HWISignature;
use crate::types::HWIStatus;
use crate::types::ToDescriptor;
use crate::types::device_from_internal;
use crate::types::parse_fingerprint;
use crate::types::spec_from_internal_rel;
use crate::types::spec_parse_fp;
use crate::types::spec_valid_address;
use crate::types::spec_valid_psbt_bytes;
use crate::types::spec_valid_xpub;

verus! {

/// The value bound to a key of a JSON object, if the value is an
/// object at all.
pub open spec fn spec_field(j: Json, key: Seq<char>) -> Option<Json> {
    match j {
        Json::Obj(fields) => spec_obj_get(fields@, key),
        _ => None,
    }
}

/// A key's value when it is text.
pub open spec fn spec_text_field(j: Json, key: Seq<char>) -> Option<Seq<char>> {
    match spec_field(j, key) {
        Some(Json::Text(t)) => Some(t@),
        _ => None,
    }
}

/// A key's value when it is a boolean.
pub open spec fn spec_bool_field(j: Json, key: Seq<char>) -> Option<bool> {
    match spec_field(j, key) {
        Some(Json::Bool(b)) => Some(b),
        _ => None,
    }
}

/// Reads a text field.
pub fn get_text<'a>(j: &'a Json, key: &str) -> (r: Option<&'a String>)
    ensures
        match r {
            Some(t) => spec_text_field(*j, key@) == Some(t@),
            None => spec_text_field(*j, key@) is None,
        },
{
    match j {
        Json::Obj(fields) => match obj_get(fields, key) {
            Some(v) => match v {
                Json::Text(t) => Some(t),
                _ => None,
            },
            None => None,
        },
        _ => None,
    }
}

/// Reads a boolean field.
pub fn get_bool(j: &Json, key: &str) -> (r: Option<bool>)
    ensures
        match r {
            Some(b) => spec_bool_field(*j, key@) == Some(b),
            None => spec_bool_field(*j, key@) is None,
        },
{
    match j {
        Json::Obj(fields) => match obj_get(fields, key) {
            Some(v) => match v {
                Json::Bool(b) => Some(*b),
                _ => None,
            },
            None => None,
        },
        _ => None,
    }
}

/// Reads any field.
pub fn get_field<'a>(j: &'a Json, key: &str) -> (r: Option<&'a Json>)
    ensures
        match r {
            Some(v) => spec_field(*j, key@) == Some(*v),
            None => spec_field(*j, key@) is None,
        },
{
    match j {
        Json::Obj(fields) => obj_get(fields, key),
        _ => None,
    }
}

/// A structural-mismatch error: the tool-failure kind, its message
/// carrying both the convert diagnostic and a rendering of the
/// offending value, so failures are debuggable without re-running the
/// external tool.
pub fn decode_error(reason: &str, j: &Json) -> (e: Error)
    ensures
        e matches Error::Hwi(m, c) && c is None && m@ == reason@ + " while deserializing "@
            + crate::json::spec_render_json(*j),
{
    let mut m = reason.to_owned();
    m.append(" while deserializing ");
    m.append(crate::json::render_json(j).as_str());
    Error::Hwi(m, None)
}

/// What decoding an extended public key response yields: the `xpub`
/// text field when it is well-formed key text, a tool-failure error
/// otherwise.
pub open spec fn spec_decode_xpub_rel(j: Json, r: Result<HWIExtendedPubKey, Error>) -> bool {
    match spec_text_field(j, "xpub"@) {
        Some(t) => {
            if spec_valid_xpub(t) {
                r matches Ok(x) && x.xpub@ == t
            } else {
                r matches Err(e) && e matches Error::Hwi(_, _)
            }
        },
        None => r matches Err(e) && e matches Error::Hwi(_, _),
    }
}

/// Decodes `{xpub: string}`.
pub fn decode_xpub(j: &Json) -> (r: Result<HWIExtendedPubKey, Error>)
    ensures
        spec_decode_xpub_rel(*j, r),
        r matches Ok(x) ==> crate::types::xpub_wf(x),
{
    match get_text(j, "xpub") {
        Some(t) => {
            if crate::types::check_xpub(t.as_str()) {
                Ok(HWIExtendedPubKey { xpub: t.clone() })
            } else {
                Err(decode_error("xpub text is not a well-formed extended public key", j))
            }
        },
        None => Err(decode_error("response carries no xpub", j)),
    }
}

/// What decoding a signature response yields: the base64 `signature`
/// field decoded to raw bytes, a tool-failure error otherwise.
pub open spec fn spec_decode_signature_rel(j: Json, r: Result<HWISignature, Error>) -> bool {
    match spec_text_field(j, "signature"@) {
        Some(t) => {
            match spec_b64_decode(t) {
                Some(b) => r matches Ok(x) && x.signature@ == b,
                None => r matches Err(e) && e matches Error::Hwi(_, _),
            }
        },
        None => r matches Err(e) && e matches Error::Hwi(_, _),
    }
}

/// Decodes `{signature: base64 string}`, decoding the base64 to raw
/// bytes right away.
pub fn decode_signature(j: &Json) -> (r: Result<HWISignature, Error>)
    ensures
        spec_decode_signature_rel(*j, r),
{
    match get_text(j, "signature") {
        Some(t) => match b64_decode(t.as_str()) {
            Some(bytes) => Ok(HWISignature { signature: bytes }),
            None => Err(decode_error("signature is not base64", j)),
        },
        None => Err(decode_error("response carries no signature", j)),
    }
}

/// What decoding an address response yields.
pub open spec fn spec_decode_address_rel(j: Json, r: Result<HWIAddress, Error>) -> bool {
    match spec_text_field(j, "address"@) {
        Some(t) => {
            if spec_valid_address(t) {
                r matches Ok(a) && a.address@ == t
            } else {
                r matches Err(e) && e matches Error::Hwi(_, _)
            }
        },
        None => r matches Err(e) && e matches Error::Hwi(_, _),
    }
}

/// Decodes `{address: string}`.
pub fn decode_address(j: &Json) -> (r: Result<HWIAddress, Error>)
    ensures
        spec_decode_address_rel(*j, r),
        r matches Ok(a) ==> crate::types::address_wf(a),
{
    match get_text(j, "address") {
        Some(t) => {
            if crate::types::check_address(t.as_str()) {
                Ok(HWIAddress { address: t.clone() })
            } else {
                Err(decode_error("address text is not a well-formed address", j))
            }
        },
        None => Err(decode_error("response carries no address", j)),
    }
}

/// What decoding a signed-transaction response yields: the `psbt`
/// field kept in its base64 wire text, once its bytes deserialize.
pub open spec fn spec_decode_psbt_rel(
    j: Json,
    r: Result<HWIPartiallySignedTransaction, Error>,
) -> bool {
    match spec_text_field(j, "psbt"@) {
        Some(t) => {
            match spec_b64_decode(t) {
                Some(b) => {
                    if spec_valid_psbt_bytes(b) {
                        r matches Ok(p) && p.psbt@ == t
                    } else {
                        r matches Err(e) && e matches Error::Hwi(_, _)
                    }
                },
                None => r matches Err(e) && e matches Error::Hwi(_, _),
            }
        },
        None => r matches Err(e) && e matches Error::Hwi(_, _),
    }
}

/// Decodes `{psbt: base64 string}`, validating the binary form.
pub fn decode_psbt(j: &Json) -> (r: Result<HWIPartiallySignedTransaction, Error>)
    ensures
        spec_decode_psbt_rel(*j, r),
        r matches Ok(p) ==> crate::types::psbt_wf(p),
{
    match get_text(j, "psbt") {
        Some(t) => match b64_decode(t.as_str()) {
            Some(bytes) => {
                if crate::types::check_psbt_bytes(bytes.as_slice()) {
                    Ok(HWIPartiallySignedTransaction { psbt: t.clone() })
                } else {
                    Err(decode_error("transaction bytes do not deserialize", j))
                }
            },
            None => Err(decode_error("psbt text is not base64", j)),
        },
        None => Err(decode_error("response carries no psbt", j)),
    }
}

/// What decoding a status response yields.
pub open spec fn spec_decode_status_rel(j: Json, r: Result<HWIStatus, Error>) -> bool {
    match spec_bool_field(j, "success"@) {
        Some(b) => r matches Ok(s) && s.success == b,
        None => r matches Err(e) && e matches Error::Hwi(_, _),
    }
}

/// Decodes `{success: bool}`.
pub fn decode_status(j: &Json) -> (r: Result<HWIStatus, Error>)
    ensures
        spec_decode_status_rel(*j, r),
{
    match get_bool(j, "success") {
        Some(b) => Ok(HWIStatus { success: b }),
        None => Err(decode_error("response carries no success flag", j)),
    }
}

/// A well-shaped key-pool entry object.
pub open spec fn spec_kp_elem_ok(j: Json) -> bool {
    &&& spec_text_field(j, "desc"@) is Some
    &&& spec_range_ok(j)
    &&& spec_text_field(j, "timestamp"@) is Some
    &&& spec_bool_field(j, "internal"@) is Some
    &&& spec_bool_field(j, "keypool"@) is Some
    &&& spec_bool_field(j, "watchonly"@) is Some
}

/// The `range` field is an array of integers that fit `u32`.
pub open spec fn spec_range_ok(j: Json) -> bool {
    match spec_field(j, "range"@) {
        Some(Json::Arr(items)) => forall|k: int|
            0 <= k < items@.len() ==> (#[trigger] items@[k] matches Json::Int(v) && 0 <= v
                <= u32::MAX),
        _ => false,
    }
}

/// Ties a well-shaped key-pool entry object to its decoded value.
pub open spec fn spec_kp_elem_match(j: Json, e: HWIKeyPoolElement) -> bool {
    &&& spec_text_field(j, "desc"@) == Some(e.desc@)
    &&& (match spec_field(j, "range"@) {
        Some(Json::Arr(items)) => e.range@.len() == items@.len() && forall|k: int|
            0 <= k < items@.len() ==> (#[trigger] items@[k] matches Json::Int(v) && e.range@[k]
                == v as u32),
        _ => false,
    })
    &&& spec_text_field(j, "timestamp"@) == Some(e.timestamp@)
    &&& spec_bool_field(j, "internal"@) == Some(e.internal)
    &&& spec_bool_field(j, "keypool"@) == Some(e.keypool)
    &&& spec_bool_field(j, "watchonly"@) == Some(e.watchonly)
}

/// Decodes one key-pool entry object.
#[verifier::loop_isolation(false)]
pub fn decode_keypool_elem(j: &Json) -> (r: Result<HWIKeyPoolElement, Error>)
    ensures
        spec_kp_elem_ok(*j) ==> (r matches Ok(e) && spec_kp_elem_match(*j, e)),
        !spec_kp_elem_ok(*j) ==> (r matches Err(e) && e matches Error::Hwi(_, _)),
{
    let desc = match get_text(j, "desc") {
        Some(t) => t.clone(),
        None => {
            return Err(decode_error("key-pool entry carries no desc", j));
        },
    };
    let timestamp = match get_text(j, "timestamp") {
        Some(t) => t.clone(),
        None => {
            return Err(decode_error("key-pool entry carries no timestamp", j));
        },
    };
    let internal = match get_bool(j, "internal") {
        Some(b) => b,
        None => {
            return Err(decode_error("key-pool entry carries no internal flag", j));
        },
    };
    let keypool = match get_bool(j, "keypool") {
        Some(b) => b,
        None => {
            return Err(decode_error("key-pool entry carries no keypool flag", j));
        },
    };
    let watchonly = match get_bool(j, "watchonly") {
        Some(b) => b,
        None => {
            return Err(decode_error("key-pool entry carries no watchonly flag", j));
        },
    };
    let items = match get_field(j, "range") {
        Some(v) => match v {
            Json::Arr(items) => items,
            _ => {
                return Err(decode_error("key-pool range is not an array", j));
            },
        },
        None => {
            return Err(decode_error("key-pool entry carries no range", j));
        },
    };
    let mut range: Vec<u32> = Vec::new();
    let mut i: usize = 0;
    while i < items.len()
        invariant
            i <= items@.len(),
            range@.len() == i,
            forall|k: int|
                0 <= k < i ==> (#[trigger] items@[k] matches Json::Int(v) && 0 <= v <= u32::MAX
                    && range@[k] == v as u32),
        decreases items@.len() - i,
    {
        match &items[i] {
            Json::Int(v) => {
                let v = *v;
                if 0 <= v && v <= u32::MAX as i64 {
                    range.push(v as u32);
                } else {
                    return Err(decode_error("key-pool range entry does not fit", j));
                }
            },
            _ => {
                return Err(decode_error("key-pool range entry is not an integer", j));
            },
        }
        i = i + 1;
    }
    Ok(HWIKeyPoolElement { desc, range, timestamp, internal, keypool, watchonly })
}

/// What decoding a key-pool response yields: every entry of the array
/// decoded, or a tool-failure error if any entry is malformed.
pub open spec fn spec_decode_keypool_rel(j: Json, r: Result<Vec<HWIKeyPoolElement>, Error>) -> bool {
    match j {
        Json::Arr(items) => {
            if forall|k: int| 0 <= k < items@.len() ==> spec_kp_elem_ok(#[trigger] items@[k]) {
                r matches Ok(v) && v@.len() == items@.len() && forall|k: int|
                    0 <= k < items@.len() ==> spec_kp_elem_match(
                        #[trigger] items@[k],
                        #[trigger] v@[k],
                    )
            } else {
                r matches Err(e) && e matches Error::Hwi(_, _)
            }
        },
        _ => r matches Err(e) && e matches Error::Hwi(_, _),
    }
}

/// Decodes a key-pool response: an array of entry objects.
#[verifier::loop_isolation(false)]
pub fn decode_keypool(j: &Json) -> (r: Result<Vec<HWIKeyPoolElement>, Error>)
    ensures
        spec_decode_keypool_rel(*j, r),
{
    let items = match j {
        Json::Arr(items) => items,
        _ => {
            return Err(decode_error("key-pool response is not an array", j));
        },
    };
    let mut out: Vec<HWIKeyPoolElement> = Vec::new();
    let mut i: usize = 0;
    while i < items.len()
        invariant
            i <= items@.len(),
            out@.len() == i,
            forall|k: int| 0 <= k < i ==> spec_kp_elem_ok(#[trigger] items@[k]),
            forall|k: int|
                0 <= k < i ==> spec_kp_elem_match(#[trigger] items@[k], #[trigger] out@[k]),
        decreases items@.len() - i,
    {
        match decode_keypool_elem(&items[i]) {
            Ok(e) => {
                out.push(e);
            },
            Err(e) => {
                proof {
                    assert(!spec_kp_elem_ok(items@[i as int]));
                }
                return Err(e);
            },
        }
        i = i + 1;
    }
    Ok(out)
}

/// An optional field holds the right type or is absent. The value
/// spec functions below are only meaningful for well-shaped records.
pub open spec fn spec_opt_text_ok(j: Json, key: Seq<char>) -> bool {
    match spec_field(j, key) {
        None => true,
        Some(Json::Text(_)) => true,
        _ => false,
    }
}

pub open spec fn spec_opt_bool_ok(j: Json, key: Seq<char>) -> bool {
    match spec_field(j, key) {
        None => true,
        Some(Json::Bool(_)) => true,
        _ => false,
    }
}

/// A well-shaped tolerant device record: every field optional, but
/// each present field of the right type; a present fingerprint must
/// parse as eight hex digits; a present code must fit `i8`.
pub open spec fn spec_device_internal_ok(j: Json) -> bool {
    &&& j matches Json::Obj(_)
    &&& spec_opt_text_ok(j, "type"@)
    &&& spec_opt_text_ok(j, "model"@)
    &&& spec_opt_text_ok(j, "path"@)
    &&& spec_opt_bool_ok(j, "needs_pin_sent"@)
    &&& spec_opt_bool_ok(j, "needs_passphrase_sent"@)
    &&& (match spec_field(j, "fingerprint"@) {
        None => true,
        Some(Json::Text(t)) => spec_parse_fp(t@) is Some,
        _ => false,
    })
    &&& spec_opt_text_ok(j, "error"@)
    &&& (match spec_field(j, "code"@) {
        None => true,
        Some(Json::Int(v)) => i8::MIN <= v <= i8::MAX,
        _ => false,
    })
}

/// Ties a well-shaped tolerant device record to its decoded value.
pub open spec fn spec_device_internal_match(j: Json, d: HWIDeviceInternal) -> bool {
    &&& (match spec_text_field(j, "type"@) {
        Some(t) => d.device_type matches Some(s) && s@ == t,
        None => d.device_type is None,
    })
    &&& (match spec_text_field(j, "model"@) {
        Some(t) => d.model matches Some(s) && s@ == t,
        None => d.model is None,
    })
    &&& (match spec_text_field(j, "path"@) {
        Some(t) => d.path matches Some(s) && s@ == t,
        None => d.path is None,
    })
    &&& spec_bool_field(j, "needs_pin_sent"@) == d.needs_pin_sent
    &&& spec_bool_field(j, "needs_passphrase_sent"@) == d.needs_passphrase_sent
    &&& (match spec_text_field(j, "fingerprint"@) {
        Some(t) => d.fingerprint matches Some(fp) && spec_parse_fp(t) == Some(fp@),
        None => d.fingerprint is None,
    })
    &&& (match spec_text_field(j, "error"@) {
        Some(t) => d.error matches Some(s) && s@ == t,
        None => d.error is None,
    })
    &&& (match spec_field(j, "code"@) {
        Some(Json::Int(v)) => d.code == Some(v as i8),
        _ => d.code is None,
    })
}

/// Decodes one tolerant device record.
#[verifier::loop_isolation(false)]
pub fn decode_device_internal(j: &Json) -> (r: Result<HWIDeviceInternal, Error>)
    ensures
        spec_device_internal_ok(*j) ==> (r matches Ok(d) && spec_device_internal_match(*j, d)),
        !spec_device_internal_ok(*j) ==> (r matches Err(e) && e matches Error::Hwi(_, _)),
{
    match j {
        Json::Obj(_) => {
        },
        _ => {
            return Err(decode_error("device record is not an object", j));
        },
    }
    let device_type = match get_field(j, "type") {
        Some(v) => match v {
            Json::Text(t) => Some(t.clone()),
            _ => {
                return Err(decode_error("device type is not text", j));
            },
        },
        None => None,
    };
    let model = match get_field(j, "model") {
        Some(v) => match v {
            Json::Text(t) => Some(t.clone()),
            _ => {
                return Err(decode_error("device model is not text", j));
            },
        },
        None => None,
    };
    let path = match get_field(j, "path") {
        Some(v) => match v {
            Json::Text(t) => Some(t.clone()),
            _ => {
                return Err(decode_error("device path is not text", j));
            },
        },
        None => None,
    };
    let needs_pin_sent = match get_field(j, "needs_pin_sent") {
        Some(v) => match v {
            Json::Bool(b) => Some(*b),
            _ => {
                return Err(decode_error("needs_pin_sent is not a boolean", j));
            },
        },
        None => None,
    };
    let needs_passphrase_sent = match get_field(j, "needs_passphrase_sent") {
        Some(v) => match v {
            Json::Bool(b) => Some(*b),
            _ => {
                return Err(decode_error("needs_passphrase_sent is not a boolean", j));
            },
        },
        None => None,
    };
    let fingerprint = match get_field(j, "fingerprint") {
        Some(v) => match v {
            Json::Text(t) => match parse_fingerprint(t.as_str()) {
                Some(fp) => Some(fp),
                None => {
                    return Err(decode_error("fingerprint is not eight hex digits", j));
                },
            },
            _ => {
                return Err(decode_error("fingerprint is not text", j));
            },
        },
        None => None,
    };
    let error = match get_field(j, "error") {
        Some(v) => match v {
            Json::Text(t) => Some(t.clone()),
            _ => {
                return Err(decode_error("device error is not text", j));
            },
        },
        None => None,
    };
    let code = match get_field(j, "code") {
        Some(v) => match v {
            Json::Int(i) => {
                let i = *i;
                if i8::MIN as i64 <= i && i <= i8::MAX as i64 {
                    Some(i as i8)
                } else {
                    return Err(decode_error("device error code does not fit", j));
                }
            },
            _ => {
                return Err(decode_error("device error code is not an integer", j));
            },
        },
        None => None,
    };
    Ok(
        HWIDeviceInternal {
            device_type,
            model,
            path,
            needs_pin_sent,
            needs_passphrase_sent,
            fingerprint,
            error,
            code,
        },
    )
}

/// What one enumerated array item yields after the tolerant decode:
/// some record matching the item, converted by the record-to-device
/// rule.
pub open spec fn spec_device_item_rel(j: Json, res: Result<HWIDevice, Error>) -> bool {
    exists|d: HWIDeviceInternal|
        #[trigger] spec_device_internal_match(j, d) && spec_from_internal_rel(d, res)
}

/// What decoding an enumeration response yields: one `Result` per
/// array item — a bad item shape fails the whole call, but an item
/// that carries an inline error only fails itself.
pub open spec fn spec_decode_devices_rel(
    j: Json,
    r: Result<Vec<Result<HWIDevice, Error>>, Error>,
) -> bool {
    match j {
        Json::Arr(items) => {
            if forall|k: int|
                0 <= k < items@.len() ==> spec_device_internal_ok(#[trigger] items@[k]) {
                r matches Ok(v) && v@.len() == items@.len() && forall|k: int|
                    0 <= k < items@.len() ==> spec_device_item_rel(
                        #[trigger] items@[k],
                        #[trigger] v@[k],
                    )
            } else {
                r matches Err(e) && e matches Error::Hwi(_, _)
            }
        },
        _ => r matches Err(e) && e matches Error::Hwi(_, _),
    }
}

/// Decodes an enumeration response tolerantly: each device record
/// becomes its own `Result`, so one failing device does not hide the
/// others.
#[verifier::loop_isolation(false)]
pub fn decode_devices(j: &Json) -> (r: Result<Vec<Result<HWIDevice, Error>>, Error>)
    ensures
        spec_decode_devices_rel(*j, r),
{
    let items = match j {
        Json::Arr(items) => items,
        _ => {
            return Err(decode_error("enumeration response is not an array", j));
        },
    };
    let mut out: Vec<Result<HWIDevice, Error>> = Vec::new();
    let mut i: usize = 0;
    while i < items.len()
        invariant
            i <= items@.len(),
            out@.len() == i,
            forall|k: int| 0 <= k < i ==> spec_device_internal_ok(#[trigger] items@[k]),
            forall|k: int|
                0 <= k < i ==> spec_device_item_rel(#[trigger] items@[k], #[trigger] out@[k]),
        decreases items@.len() - i,
    {
        match decode_device_internal(&items[i]) {
            Ok(d) => {
                let ghost d0 = d;
                let item = device_from_internal(d);
                proof {
                    assert(spec_device_internal_match(items@[i as int], d0)
                        && spec_from_internal_rel(d0, item));
                }
                out.push(item);
            },
            Err(e) => {
                proof {
                    assert(!spec_device_internal_ok(items@[i as int]));
                }
                return Err(e);
            },
        }
        i = i + 1;
    }
    Ok(out)
}

/// A well-shaped descriptor response: `internal` and `receive` both
/// arrays of text.
pub open spec fn spec_desc_shape_ok(j: Json) -> bool {
    &&& (match spec_field(j, "internal"@) {
        Some(Json::Arr(items)) => forall|k: int|
            0 <= k < items@.len() ==> #[trigger] items@[k] matches Json::Text(_),
        _ => false,
    })
    &&& (match spec_field(j, "receive"@) {
        Some(Json::Arr(items)) => forall|k: int|
            0 <= k < items@.len() ==> #[trigger] items@[k] matches Json::Text(_),
        _ => false,
    })
}

/// Ties a well-shaped descriptor response to its plain-text decoding.
pub open spec fn spec_desc_strings_match(j: Json, d: HWIDescriptor<String>) -> bool {
    &&& (match spec_field(j, "internal"@) {
        Some(Json::Arr(items)) => d.internal@.len() == items@.len() && forall|k: int|
            0 <= k < items@.len() ==> (#[trigger] items@[k] matches Json::Text(t) && d.internal@[k]@
                == t@),
        _ => false,
    })
    &&& (match spec_field(j, "receive"@) {
        Some(Json::Arr(items)) => d.receive@.len() == items@.len() && forall|k: int|
            0 <= k < items@.len() ==> (#[trigger] items@[k] matches Json::Text(t) && d.receive@[k]@
                == t@),
        _ => false,
    })
}

/// Reads one branch of a descriptor response as plain text.
#[verifier::loop_isolation(false)]
fn decode_string_branch(j: &Json, key: &str) -> (r: Result<Vec<String>, Error>)
    ensures
        match spec_field(*j, key@) {
            Some(Json::Arr(items)) => {
                if forall|k: int|
                    0 <= k < items@.len() ==> #[trigger] items@[k] matches Json::Text(_) {
                    r matches Ok(v) && v@.len() == items@.len() && forall|k: int|
                        0 <= k < items@.len() ==> (#[trigger] items@[k] matches Json::Text(t)
                            && v@[k]@ == t@)
                } else {
                    r matches Err(e) && e matches Error::Hwi(_, _)
                }
            },
            _ => r matches Err(e) && e matches Error::Hwi(_, _),
        },
{
    let items = match get_field(j, key) {
        Some(v) => match v {
            Json::Arr(items) => items,
            _ => {
                return Err(decode_error("descriptor branch is not an array", j));
            },
        },
        None => {
            return Err(decode_error("descriptor branch is missing", j));
        },
    };
    let mut out: Vec<String> = Vec::new();
    let mut i: usize = 0;
    while i < items.len()
        invariant
            i <= items@.len(),
            out@.len() == i,
            forall|k: int|
                0 <= k < i ==> (#[trigger] items@[k] matches Json::Text(t) && out@[k]@ == t@),
        decreases items@.len() - i,
    {
        match &items[i] {
            Json::Text(t) => {
                out.push(t.clone());
            },
            _ => {
                return Err(decode_error("descriptor entry is not text", j));
            },
        }
        i = i + 1;
    }
    Ok(out)
}

/// What decoding a descriptor response as plain text yields.
pub open spec fn spec_decode_desc_strings_rel(j: Json, r: Result<HWIDescriptor<String>, Error>) -> bool {
    if spec_desc_shape_ok(j) {
        r matches Ok(d) && spec_desc_strings_match(j, d)
    } else {
        r matches Err(e) && e matches Error::Hwi(_, _)
    }
}

/// Decodes `{internal: [string], receive: [string]}` keeping the
/// descriptors as plain wire text.
#[verifier::loop_isolation(false)]
pub fn decode_descriptors_strings(j: &Json) -> (r: Result<HWIDescriptor<String>, Error>)
    ensures
        spec_decode_desc_strings_rel(*j, r),
{
    let internal = match decode_string_branch(j, "internal") {
        Ok(v) => v,
        Err(e) => {
            return Err(e);
        },
    };
    let receive = match decode_string_branch(j, "receive") {
        Ok(v) => v,
        Err(e) => {
            return Err(e);
        },
    };
    Ok(HWIDescriptor { internal, receive })
}

/// Decodes a descriptor response into any descriptor representation:
/// each wire text is handed to the representation's own parser, and a
/// parse failure fails the whole call.
#[verifier::loop_isolation(false)]
pub fn decode_descriptors<T: ToDescriptor>(j: &Json) -> (r: Result<HWIDescriptor<T>, Error>)
    ensures
        !spec_desc_shape_ok(*j) ==> r is Err,
        r matches Ok(d) ==> spec_desc_shape_ok(*j) && (match spec_field(*j, "internal"@) {
            Some(Json::Arr(items)) => d.internal@.len() == items@.len(),
            _ => false,
        }) && (match spec_field(*j, "receive"@) {
            Some(Json::Arr(items)) => d.receive@.len() == items@.len(),
            _ => false,
        }),
{
    let plain = match decode_descriptors_strings(j) {
        Ok(d) => d,
        Err(e) => {
            return Err(e);
        },
    };
    let mut internal: Vec<T> = Vec::new();
    let mut i: usize = 0;
    while i < plain.internal.len()
        invariant
            internal@.len() == i,
            i <= plain.internal@.len(),
        decreases plain.internal@.len() - i,
    {
        match T::from_wire(plain.internal[i].as_str()) {
            Ok(d) => {
                internal.push(d);
            },
            Err(e) => {
                return Err(e);
            },
        }
        i = i + 1;
    }
    let mut receive: Vec<T> = Vec::new();
    let mut k: usize = 0;
    while k < plain.receive.len()
        invariant
            receive@.len() == k,
            k <= plain.receive@.len(),
        decreases plain.receive@.len() - k,
    {
        match T::from_wire(plain.receive[k].as_str()) {
            Ok(d) => {
                receive.push(d);
            },
            Err(e) => {
                return Err(e);
            },
        }
        k = k + 1;
    }
    Ok(HWIDescriptor { internal, receive })
}

/// JSON encodings of the domain values, for the round-trip laws and
/// for handing values back over the wire.
pub open spec fn spec_xpub_encoding(j: Json, x: HWIExtendedPubKey) -> bool {
    spec_text_field(j, "xpub"@) == Some(x.xpub@)
}

/// Encodes an extended public key as `{xpub: string}`.
pub fn xpub_to_json(x: &HWIExtendedPubKey) -> (j: Json)
    ensures
        spec_xpub_encoding(j, *x),
{
    let mut fields: Vec<(String, Json)> = Vec::new();
    fields.push(("xpub".to_owned(), Json::Text(x.xpub.clone())));
    Json::Obj(fields)
}

pub open spec fn spec_signature_encoding(j: Json, x: HWISignature) -> bool {
    spec_text_field(j, "signature"@) == Some(spec_b64_encode(x.signature@))
}

/// Encodes a signature as `{signature: base64 string}`.
pub fn signature_to_json(x: &HWISignature) -> (j: Json)
    ensures
        spec_signature_encoding(j, *x),
{
    let mut fields: Vec<(String, Json)> = Vec::new();
    fields.push(("signature".to_owned(), Json::Text(b64_encode(x.signature.as_slice()))));
    Json::Obj(fields)
}

pub open spec fn spec_address_encoding(j: Json, x: HWIAddress) -> bool {
    spec_text_field(j, "address"@) == Some(x.address@)
}

/// Encodes an address as `{address: string}`.
pub fn address_to_json(x: &HWIAddress) -> (j: Json)
    ensures
        spec_address_encoding(j, *x),
{
    let mut fields: Vec<(String, Json)> = Vec::new();
    fields.push(("address".to_owned(), Json::Text(x.address.clone())));
    Json::Obj(fields)
}

pub open spec fn spec_status_encoding(j: Json, x: HWIStatus) -> bool {
    spec_bool_field(j, "success"@) == Some(x.success)
}

/// Encodes a status as `{success: bool}`.
pub fn status_to_json(x: &HWIStatus) -> (j: Json)
    ensures
        spec_status_encoding(j, *x),
{
    let mut fields: Vec<(String, Json)> = Vec::new();
    fields.push(("success".to_owned(), Json::Bool(x.success)));
    Json::Obj(fields)
}

pub open spec fn spec_descriptor_encoding(j: Json, d: HWIDescriptor<String>) -> bool {
    spec_desc_shape_ok(j) && spec_desc_strings_match(j, d)
}

/// Turns a list of descriptor texts into a JSON array of text.
fn strings_to_json_arr(v: &Vec<String>) -> (r: Vec<Json>)
    ensures
        r@.len() == v@.len(),
        forall|k: int|
            0 <= k < v@.len() ==> (#[trigger] r@[k] matches Json::Text(t) && t@ == v@[k]@),
{
    let mut out: Vec<Json> = Vec::new();
    let mut i: usize = 0;
    while i < v.len()
        invariant
            i <= v@.len(),
            out@.len() == i,
            forall|k: int|
                0 <= k < i ==> (#[trigger] out@[k] matches Json::Text(t) && t@ == v@[k]@),
        decreases v@.len() - i,
    {
        out.push(Json::Text(v[i].clone()));
        i = i + 1;
    }
    out
}

/// Encodes a plain-text descriptor pair as
/// `{internal: [string], receive: [string]}`.
pub fn descriptor_to_json(d: &HWIDescriptor<String>) -> (j: Json)
    ensures
        spec_descriptor_encoding(j, *d),
{
    let mut fields: Vec<(String, Json)> = Vec::new();
    fields.push(("internal".to_owned(), Json::Arr(strings_to_json_arr(&d.internal))));
    fields.push(("receive".to_owned(), Json::Arr(strings_to_json_arr(&d.receive))));
    let ghost fs = fields@;
    let j = Json::Obj(fields);
    proof {
        reveal_strlit("internal");
        reveal_strlit("receive");
        assert(fs.len() == 2);
        assert(fs[0].0@ == "internal"@);
        assert(fs[1].0@ == "receive"@);
        assert("internal"@.len() == 8);
        assert("receive"@.len() == 7);
        assert(spec_obj_get(fs, "internal"@) == Some(fs[0].1));
        assert(fs.drop_first()[0] == fs[1]);
        assert(fs.drop_first().len() == 1);
        assert(spec_obj_get(fs.drop_first(), "receive"@) == Some(fs[1].1));
        assert(spec_obj_get(fs, "receive"@) == Some(fs[1].1));
    }
    j
}

/// Parses response text and decodes an extended public key: a parse
/// failure is the JSON-decode error kind, carrying the diagnostic.
pub fn decode_xpub_response(s: &str) -> (r: Result<HWIExtendedPubKey, Error>)
    ensures
        match crate::json::spec_parse_json(s@) {
            Some(j) => spec_decode_xpub_rel(j, r),
            None => r matches Err(e) && e matches Error::Json(m) && m@.len() >= s@.len()
                && m@.subrange(m@.len() - s@.len(), m@.len() as int) == s@,
        },
        r matches Ok(x) ==> crate::types::xpub_wf(x),
{
    match crate::json::parse_json(s) {
        Ok(j) => decode_xpub(&j),
        Err(e) => Err(e),
    }
}

/// Parses response text and decodes a signature.
pub fn decode_signature_response(s: &str) -> (r: Result<HWISignature, Error>)
    ensures
        match crate::json::spec_parse_json(s@) {
            Some(j) => spec_decode_signature_rel(j, r),
            None => r matches Err(e) && e matches Error::Json(m) && m@.len() >= s@.len()
                && m@.subrange(m@.len() - s@.len(), m@.len() as int) == s@,
        },
{
    match crate::json::parse_json(s) {
        Ok(j) => decode_signature(&j),
        Err(e) => Err(e),
    }
}

/// Parses response text and decodes an address.
pub fn decode_address_response(s: &str) -> (r: Result<HWIAddress, Error>)
    ensures
        match crate::json::spec_parse_json(s@) {
            Some(j) => spec_decode_address_rel(j, r),
            None => r matches Err(e) && e matches Error::Json(m) && m@.len() >= s@.len()
                && m@.subrange(m@.len() - s@.len(), m@.len() as int) == s@,
        },
        r matches Ok(a) ==> crate::types::address_wf(a),
{
    match crate::json::parse_json(s) {
        Ok(j) => decode_address(&j),
        Err(e) => Err(e),
    }
}

/// Parses response text and decodes a signed transaction.
pub fn decode_psbt_response(s: &str) -> (r: Result<HWIPartiallySignedTransaction, Error>)
    ensures
        match crate::json::spec_parse_json(s@) {
            Some(j) => spec_decode_psbt_rel(j, r),
            None => r matches Err(e) && e matches Error::Json(m) && m@.len() >= s@.len()
                && m@.subrange(m@.len() - s@.len(), m@.len() as int) == s@,
        },
        r matches Ok(p) ==> crate::types::psbt_wf(p),
{
    match crate::json::parse_json(s) {
        Ok(j) => decode_psbt(&j),
        Err(e) => Err(e),
    }
}

/// Parses response text and decodes a status object.
pub fn decode_status_response(s: &str) -> (r: Result<HWIStatus, Error>)
    ensures
        match crate::json::spec_parse_json(s@) {
            Some(j) => spec_decode_status_rel(j, r),
            None => r matches Err(e) && e matches Error::Json(m) && m@.len() >= s@.len()
                && m@.subrange(m@.len() - s@.len(), m@.len() as int) == s@,
        },
{
    match crate::json::parse_json(s) {
        Ok(j) => decode_status(&j),
        Err(e) => Err(e),
    }
}

/// Parses response text and decodes a key-pool listing.
pub fn decode_keypool_response(s: &str) -> (r: Result<Vec<HWIKeyPoolElement>, Error>)
    ensures
        match crate::json::spec_parse_json(s@) {
            Some(j) => spec_decode_keypool_rel(j, r),
            None => r matches Err(e) && e matches Error::Json(m) && m@.len() >= s@.len()
                && m@.subrange(m@.len() - s@.len(), m@.len() as int) == s@,
        },
{
    match crate::json::parse_json(s) {
        Ok(j) => decode_keypool(&j),
        Err(e) => Err(e),
    }
}

/// Parses response text and decodes an enumeration tolerantly.
pub fn decode_devices_response(s: &str) -> (r: Result<Vec<Result<HWIDevice, Error>>, Error>)
    ensures
        match crate::json::spec_parse_json(s@) {
            Some(j) => spec_decode_devices_rel(j, r),
            None => r matches Err(e) && e matches Error::Json(m) && m@.len() >= s@.len()
                && m@.subrange(m@.len() - s@.len(), m@.len() as int) == s@,
        },
{
    match crate::json::parse_json(s) {
        Ok(j) => decode_devices(&j),
        Err(e) => Err(e),
    }
}

} // verus!
