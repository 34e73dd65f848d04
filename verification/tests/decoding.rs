//! The response decoder: strict shapes, the tolerant enumeration
//! decode, and the round trips through the JSON encodings.

use hwi::b64::b64_encode;
use hwi::decode::address_to_json;
use hwi::decode::decode_address;
use hwi::decode::decode_descriptors_strings;
use hwi::decode::decode_devices_response;
use hwi::decode::decode_keypool_response;
use hwi::decode::decode_psbt_response;
use hwi::decode::decode_signature;
use hwi::decode::decode_status;
use hwi::decode::decode_status_response;
use hwi::decode::decode_xpub;
use hwi::decode::decode_xpub_response;
use hwi::decode::descriptor_to_json;
use hwi::decode::signature_to_json;
use hwi::decode::status_to_json;
use hwi::decode::xpub_to_json;
use hwi::error::Error;
use hwi::error::ErrorCode;
use hwi::json::Json;
use hwi::json::parse_json;
use hwi::types::HWIAddress;
use hwi::types::HWIDescriptor;
use hwi::types::HWIExtendedPubKey;
use hwi::types::HWISignature;
use hwi::types::HWIStatus;

const XPUB: &str = "xpub661MyMwAqRbcFtXgS5sYJABqqG9YLmC4Q1Rdap9gSE8NqtwybGhePY2gZ29ESFjqJoCu1Rupje8YtGqsefD265TMg7usUDFdp6W1EGMcet8";
const ADDRESS: &str = "1A1zP1eP5QGefi2DMPTfTL5SLmv7DivfNa";

#[test]
fn test_status_round_trip_true() {
    let s = HWIStatus { success: true };
    let j = status_to_json(&s);
    let back = decode_status(&j).unwrap();
    assert_eq!(back, s);
    assert!(back.into_result().is_ok());
}

#[test]
fn test_status_round_trip_false() {
    let j = status_to_json(&HWIStatus { success: false });
    let back = decode_status(&j).unwrap();
    match back.into_result() {
        Err(Error::Hwi(m, None)) => assert_eq!(m, "request returned with failure"),
        _ => panic!("expected the generic tool-failure error"),
    }
}

#[test]
fn test_status_from_text() {
    assert!(decode_status_response("{\"success\": true}").unwrap().into_result().is_ok());
    match decode_status_response("{\"success\": \"yes\"}") {
        Err(Error::Hwi(m, None)) => {
            assert!(m.contains("while deserializing"));
            assert!(m.contains("{\"success\":\"yes\"}"), "rendering missing: {}", m);
        },
        _ => panic!("a shape mismatch is the tool-failure kind"),
    }
    assert!(matches!(decode_status_response("success"), Err(Error::Json(_))));
}

#[test]
fn test_xpub_idempotent() {
    let x = HWIExtendedPubKey { xpub: XPUB.to_string() };
    let j = xpub_to_json(&x);
    assert_eq!(decode_xpub(&j).unwrap(), x);
}

#[test]
fn test_xpub_rejects_malformed_key() {
    let x = HWIExtendedPubKey { xpub: "xpub-not-a-key".to_string() };
    let j = xpub_to_json(&x);
    assert!(matches!(decode_xpub(&j), Err(Error::Hwi(_, _))));
    assert!(matches!(HWIExtendedPubKey::new("nope".to_string()), Err(Error::Hwi(_, _))));
}

#[test]
fn test_signature_idempotent() {
    let s = HWISignature { signature: vec![1, 2, 3, 250, 0, 77] };
    let j = signature_to_json(&s);
    assert_eq!(decode_signature(&j).unwrap(), s);
}

#[test]
fn test_signature_rejects_bad_base64() {
    let j = Json::Obj(vec![(
        "signature".to_string(),
        Json::Text("@@@@".to_string()),
    )]);
    assert!(matches!(decode_signature(&j), Err(Error::Hwi(_, _))));
}

#[test]
fn test_address_idempotent() {
    let a = HWIAddress { address: ADDRESS.to_string() };
    let j = address_to_json(&a);
    assert_eq!(decode_address(&j).unwrap(), a);
}

#[test]
fn test_address_rejects_malformed() {
    let a = HWIAddress { address: "not an address".to_string() };
    let j = address_to_json(&a);
    assert!(matches!(decode_address(&j), Err(Error::Hwi(_, _))));
}

#[test]
fn test_descriptor_idempotent() {
    let d = HWIDescriptor {
        internal: vec!["wpkh(a)/1/*#q0w1e2r3".to_string()],
        receive: vec!["wpkh(a)/0/*".to_string(), "tr(b)/0/*".to_string()],
    };
    let j = descriptor_to_json(&d);
    assert_eq!(decode_descriptors_strings(&j).unwrap(), d);
}

#[test]
fn test_descriptor_rejects_non_text_entry() {
    let j = Json::Obj(vec![
        ("internal".to_string(), Json::Arr(vec![Json::Int(3)])),
        ("receive".to_string(), Json::Arr(vec![])),
    ]);
    assert!(matches!(decode_descriptors_strings(&j), Err(Error::Hwi(_, _))));
}

#[test]
fn test_keypool_single_point_range() {
    let text = "[{\"desc\": \"wpkh(abc)/44'/1'/0'/0/*\", \"range\": [5, 5], \
                \"timestamp\": \"now\", \"internal\": false, \"keypool\": true, \
                \"watchonly\": true}]";
    let v = decode_keypool_response(text).unwrap();
    assert_eq!(v.len(), 1);
    assert_eq!(v[0].desc, "wpkh(abc)/44'/1'/0'/0/*");
    assert_eq!(v[0].range, vec![5, 5]);
    assert_eq!(v[0].timestamp, "now");
    assert!(!v[0].internal);
    assert!(v[0].keypool);
    assert!(v[0].watchonly);
}

#[test]
fn test_keypool_rejects_bad_entry() {
    let text = "[{\"desc\": \"d\", \"range\": [0, \"x\"], \"timestamp\": \"now\", \
                \"internal\": false, \"keypool\": true, \"watchonly\": false}]";
    assert!(matches!(decode_keypool_response(text), Err(Error::Hwi(_, _))));
    let text = "[{\"range\": [0, 1], \"timestamp\": \"now\", \
                \"internal\": false, \"keypool\": true, \"watchonly\": false}]";
    assert!(matches!(decode_keypool_response(text), Err(Error::Hwi(_, _))));
    let text = "[{\"desc\": \"d\", \"range\": [0, 4294967296], \"timestamp\": \"now\", \
                \"internal\": false, \"keypool\": true, \"watchonly\": false}]";
    assert!(matches!(decode_keypool_response(text), Err(Error::Hwi(_, _))));
}

#[test]
fn test_keypool_range_any_length() {
    let text = "[{\"desc\": \"d\", \"range\": [1, 2, 3], \"timestamp\": \"now\", \
                \"internal\": true, \"keypool\": false, \"watchonly\": false}]";
    let v = decode_keypool_response(text).unwrap();
    assert_eq!(v[0].range, vec![1, 2, 3]);
}

#[test]
fn test_device_record_ignores_unknown_fields() {
    let text = "[{\"type\": \"jade\", \"model\": \"jade1\", \"path\": \"p\", \
                \"needs_pin_sent\": true, \"needs_passphrase_sent\": false, \
                \"fingerprint\": \"0a0b0c0d\", \"warnings\": []}]";
    let v = decode_devices_response(text).unwrap();
    let d = v[0].as_ref().unwrap();
    assert_eq!(d.fingerprint, [0x0a, 0x0b, 0x0c, 0x0d]);
    assert!(d.needs_pin_sent);
}

#[test]
fn test_tolerant_enumerate_mixed() {
    let text = "[{\"type\": \"trezor\", \"model\": \"trezor_1\", \"path\": \"webusb:000:1:2\", \
                \"needs_pin_sent\": false, \"needs_passphrase_sent\": false, \
                \"fingerprint\": \"00000000\"}, {\"error\": \"x\", \"code\": -7}]";
    let v = decode_devices_response(text).unwrap();
    assert_eq!(v.len(), 2);
    let d = v[0].as_ref().unwrap();
    assert!(matches!(d.device_type, hwi::types::HWIDeviceType::Trezor));
    assert_eq!(d.model, "trezor_1");
    assert_eq!(d.path, "webusb:000:1:2");
    assert!(!d.needs_pin_sent);
    assert!(!d.needs_passphrase_sent);
    assert_eq!(d.fingerprint, [0, 0, 0, 0]);
    match &v[1] {
        Err(Error::Hwi(m, Some(ErrorCode::BadArgument))) => assert_eq!(m, "x"),
        _ => panic!("expected a bad-argument failure for the second record"),
    }
}

#[test]
fn test_tolerant_enumerate_unrecognized_code() {
    let text = "[{\"error\": \"y\", \"code\": -99}]";
    let v = decode_devices_response(text).unwrap();
    match &v[0] {
        Err(Error::Hwi(m, None)) => assert_eq!(m, "y"),
        _ => panic!("an unrecognized code must not be guessed at"),
    }
}

#[test]
fn test_tolerant_enumerate_missing_field_is_item_error() {
    let text = "[{\"type\": \"jade\", \"model\": \"jade1\"}]";
    let v = decode_devices_response(text).unwrap();
    assert!(matches!(&v[0], Err(Error::Hwi(_, None))));
}

#[test]
fn test_enumerate_bad_shape_fails_whole_call() {
    assert!(matches!(
        decode_devices_response("{\"type\": \"jade\"}"),
        Err(Error::Hwi(_, _))
    ));
    assert!(matches!(
        decode_devices_response("[{\"fingerprint\": \"zz\"}]"),
        Err(Error::Hwi(_, _))
    ));
    assert!(matches!(decode_devices_response("[milk"), Err(Error::Json(_))));
}

#[test]
fn test_xpub_response_from_text() {
    let text = format!("{{\"xpub\": \"{}\"}}", XPUB);
    assert_eq!(decode_xpub_response(&text).unwrap().xpub, XPUB);
    match decode_xpub_response("}{") {
        Err(Error::Json(m)) => assert!(m.ends_with("}{"), "offending text missing: {}", m),
        _ => panic!("malformed JSON must give the JSON-decode kind"),
    }
}

#[test]
fn test_psbt_response_validates_binary() {
    let tx = bitcoin::Transaction {
        version: bitcoin::transaction::Version::TWO,
        lock_time: bitcoin::absolute::LockTime::from_consensus(0),
        input: vec![],
        output: vec![],
    };
    let psbt = bitcoin::Psbt::from_unsigned_tx(tx).unwrap();
    let b64 = b64_encode(&psbt.serialize());
    let text = format!("{{\"psbt\": \"{}\"}}", b64);
    let p = decode_psbt_response(&text).unwrap();
    assert_eq!(p.psbt, b64);

    let garbage = b64_encode(&[1, 2, 3, 4]);
    let text = format!("{{\"psbt\": \"{}\"}}", garbage);
    assert!(matches!(decode_psbt_response(&text), Err(Error::Hwi(_, _))));
}

#[test]
fn test_render_json_compact() {
    let j = Json::Obj(vec![(
        "a".to_string(),
        Json::Arr(vec![
            Json::Int(-3),
            Json::Null,
            Json::Bool(true),
            Json::Text("q\"\\\n".to_string()),
        ]),
    )]);
    assert_eq!(
        hwi::json::render_json(&j),
        "{\"a\":[-3,null,true,\"q\\\"\\\\\\u000a\"]}"
    );
}

#[test]
fn test_parse_json_shapes() {
    let j = parse_json("{\"a\": [1, true, null, \"s\"], \"b\": -3}").unwrap();
    match j {
        Json::Obj(fields) => {
            assert_eq!(fields.len(), 2);
            assert_eq!(fields[0].0, "a");
            match &fields[0].1 {
                Json::Arr(items) => {
                    assert_eq!(items.len(), 4);
                    assert!(matches!(items[0], Json::Int(1)));
                    assert!(matches!(items[1], Json::Bool(true)));
                    assert!(matches!(items[2], Json::Null));
                    match &items[3] {
                        Json::Text(t) => assert_eq!(t, "s"),
                        _ => panic!("expected text"),
                    }
                },
                _ => panic!("expected an array"),
            }
            assert!(matches!(fields[1].1, Json::Int(-3)));
        },
        _ => panic!("expected an object"),
    }
    assert!(parse_json("nope").is_err());
}
