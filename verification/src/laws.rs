//! The crate-wide laws: round trips through the JSON encodings, and
//! the shape of every command's token sequence. Each law is stated
//! over the same relations the executable functions' contracts use.

use vstd::prelude::*;

use crate::b64::lemma_b64_round_trip;
use crate::binary::spec_global_tokens;
use crate::decode::spec_address_encoding;
use crate::decode::spec_decode_address_rel;
use crate::decode::spec_decode_desc_strings_rel;
use crate::decode::spec_decode_signature_rel;
use crate::decode::spec_decode_status_rel;
use crate::decode::spec_decode_xpub_rel;
use crate::decode::spec_descriptor_encoding;
use crate::decode::spec_signature_encoding;
use crate::decode::spec_status_encoding;
use crate::decode::spec_xpub_encoding;
use crate::error::Error;
use crate::json::Json;
use crate::types::HWIAddress;
use crate::types::HWIChain;
use crate::types::HWIDevice;
use crate::types::HWIDeviceInternal;
use crate::types::HWIDescriptor;
use crate::types::HWIExtendedPubKey;
use crate::types::HWISignature;
use crate::types::HWIStatus;

verus! {

/// Encoding a status and decoding it back yields the same status; a
/// true status then converts to success, a false one to the generic
/// tool-failure error (see [`HWIStatus::into_result`]).
pub proof fn lemma_status_round_trip(s: HWIStatus, j: Json, r: Result<HWIStatus, Error>)
    requires
        spec_status_encoding(j, s),
        spec_decode_status_rel(j, r),
    ensures
        r matches Ok(s2) && s2 == s,
{
}

/// Re-decoding the JSON encoding of a well-formed extended public key
/// yields an equal value.
pub proof fn lemma_xpub_round_trip(x: HWIExtendedPubKey, j: Json, r: Result<
    HWIExtendedPubKey,
    Error,
>)
    requires
        crate::types::xpub_wf(x),
        spec_xpub_encoding(j, x),
        spec_decode_xpub_rel(j, r),
    ensures
        r matches Ok(y) && y.xpub@ == x.xpub@,
{
}

/// Re-decoding the JSON encoding of a signature yields an equal
/// value: its base64 wire text comes back as the same raw bytes.
pub proof fn lemma_signature_round_trip(x: HWISignature, j: Json, r: Result<HWISignature, Error>)
    requires
        spec_signature_encoding(j, x),
        spec_decode_signature_rel(j, r),
    ensures
        r matches Ok(y) && y.signature@ == x.signature@,
{
    lemma_b64_round_trip(x.signature@);
}

/// Re-decoding the JSON encoding of a well-formed address yields an
/// equal value.
pub proof fn lemma_address_round_trip(x: HWIAddress, j: Json, r: Result<HWIAddress, Error>)
    requires
        crate::types::address_wf(x),
        spec_address_encoding(j, x),
        spec_decode_address_rel(j, r),
    ensures
        r matches Ok(y) && y.address@ == x.address@,
{
}

/// Re-decoding the JSON encoding of a descriptor pair yields an equal
/// value, branch by branch and entry by entry.
pub proof fn lemma_descriptor_round_trip(d: HWIDescriptor<String>, j: Json, r: Result<
    HWIDescriptor<String>,
    Error,
>)
    requires
        spec_descriptor_encoding(j, d),
        spec_decode_desc_strings_rel(j, r),
    ensures
        r matches Ok(d2) && d2.internal@.len() == d.internal@.len() && d2.receive@.len()
            == d.receive@.len() && (forall|k: int|
            0 <= k < d.internal@.len() ==> #[trigger] d2.internal@[k]@ == d.internal@[k]@) && (
        forall|k: int| 0 <= k < d.receive@.len() ==> #[trigger] d2.receive@[k]@ == d.receive@[k]@),
{
    let d2 = r->Ok_0;
    match crate::decode::spec_field(j, "internal"@) {
        Some(Json::Arr(items)) => {
            assert forall|k: int|
                0 <= k < d.internal@.len() implies #[trigger] d2.internal@[k]@
                == d.internal@[k]@ by {
                assert(items@[k] matches Json::Text(t) && d.internal@[k]@ == t@);
                assert(items@[k] matches Json::Text(t) && d2.internal@[k]@ == t@);
            }
        },
        _ => {
            assert(false);
        },
    }
    match crate::decode::spec_field(j, "receive"@) {
        Some(Json::Arr(items)) => {
            assert forall|k: int|
                0 <= k < d.receive@.len() implies #[trigger] d2.receive@[k]@
                == d.receive@[k]@ by {
                assert(items@[k] matches Json::Text(t) && d.receive@[k]@ == t@);
                assert(items@[k] matches Json::Text(t) && d2.receive@[k]@ == t@);
            }
        },
        _ => {
            assert(false);
        },
    }
}

/// In a tolerant enumeration decode, an item that carries an inline
/// error string fails alone: its result is exactly that error, with
/// the numeric code mapped through the error-code table when it is
/// recognized and dropped when it is not.
pub proof fn lemma_enumerated_item_with_error(j: Json, res: Result<HWIDevice, Error>, e: Seq<char>, c: i8)
    requires
        crate::decode::spec_device_item_rel(j, res),
        crate::decode::spec_text_field(j, "error"@) == Some(e),
        crate::decode::spec_field(j, "code"@) == Some(Json::Int(c as i64)),
    ensures
        res matches Err(err) && err matches Error::Hwi(m, code) && m@ == e && code
            == crate::error::spec_code_from_i8(c),
{
    let d = choose|d: HWIDeviceInternal|
        #[trigger] crate::decode::spec_device_internal_match(j, d)
            && crate::types::spec_from_internal_rel(d, res);
    assert(d.error matches Some(s) && s@ == e);
    assert(d.code == Some(c));
}

/// In a tolerant enumeration decode, an item with no inline error and
/// every field present becomes the device those fields describe.
pub proof fn lemma_enumerated_item_well_formed(
    j: Json,
    res: Result<HWIDevice, Error>,
    ty: Seq<char>,
    model: Seq<char>,
    path: Seq<char>,
    pin: bool,
    pass: bool,
    fp: Seq<u8>,
)
    requires
        crate::decode::spec_device_item_rel(j, res),
        crate::decode::spec_text_field(j, "error"@) is None,
        crate::decode::spec_text_field(j, "type"@) == Some(ty),
        crate::decode::spec_text_field(j, "model"@) == Some(model),
        crate::decode::spec_text_field(j, "path"@) == Some(path),
        crate::decode::spec_bool_field(j, "needs_pin_sent"@) == Some(pin),
        crate::decode::spec_bool_field(j, "needs_passphrase_sent"@) == Some(pass),
        (crate::decode::spec_text_field(j, "fingerprint"@) matches Some(t)
            && crate::types::spec_parse_fp(t) == Some(fp)),
    ensures
        res matches Ok(dev) && crate::types::spec_type_of_name(ty, dev.device_type) && dev.model@
            == model && dev.path@ == path && dev.needs_pin_sent == pin
            && dev.needs_passphrase_sent == pass && dev.fingerprint@ == fp,
{
    let d = choose|d: HWIDeviceInternal|
        #[trigger] crate::decode::spec_device_internal_match(j, d)
            && crate::types::spec_from_internal_rel(d, res);
    assert(d.error is None);
    assert(d.device_type matches Some(s) && s@ == ty);
    assert(d.model matches Some(s) && s@ == model);
    assert(d.path matches Some(s) && s@ == path);
    assert(d.fingerprint matches Some(b) && b@ == fp);
}

/// For one operation, the token sequence is a function of the
/// operation's inputs alone: two invocations built from the same
/// global settings and the same operation tokens are identical.
pub proof fn lemma_command_tokens_deterministic(
    fp: Option<Seq<u8>>,
    expert: bool,
    chain: Option<HWIChain>,
    op: Seq<Seq<char>>,
    r1: Seq<Seq<char>>,
    r2: Seq<Seq<char>>,
)
    requires
        r1 == spec_global_tokens(fp, expert, chain) + op,
        r2 == spec_global_tokens(fp, expert, chain) + op,
    ensures
        r1 == r2,
{
}

/// The global tokens — fingerprint, expert, chain — always precede
/// the operation's own tokens, which keep their order.
pub proof fn lemma_globals_precede_op_tokens(
    fp: Option<Seq<u8>>,
    expert: bool,
    chain: Option<HWIChain>,
    op: Seq<Seq<char>>,
    r: Seq<Seq<char>>,
)
    requires
        r == spec_global_tokens(fp, expert, chain) + op,
    ensures
        r.len() == spec_global_tokens(fp, expert, chain).len() + op.len(),
        forall|k: int|
            0 <= k < spec_global_tokens(fp, expert, chain).len() ==> r[k] == spec_global_tokens(
                fp,
                expert,
                chain,
            )[k],
        forall|k: int|
            0 <= k < op.len() ==> r[spec_global_tokens(fp, expert, chain).len() + k] == op[k],
{
}

} // verus!
