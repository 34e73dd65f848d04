//! The embedded-backend call plans: function names and argument
//! order.

use hwi::pyplan::PyCall;
use hwi::pyplan::PyValue;
use hwi::pyplan::py_display_address_path;
use hwi::pyplan::py_enumerate;
use hwi::pyplan::py_get_client;
use hwi::pyplan::py_get_keypool;
use hwi::pyplan::py_get_master_xpub;
use hwi::pyplan::py_restore_device;
use hwi::pyplan::py_sign_message;
use hwi::types::HWIAddressType;
use hwi::types::HWIChain;
use hwi::types::HWIDeviceType;
use hwi::types::LogLevel;

#[test]
fn test_plan_enumerate() {
    let c: PyCall = py_enumerate();
    assert_eq!(c.function, "enumerate");
    assert!(c.args.is_empty());
}

#[test]
fn test_plan_get_client_order() {
    let c = py_get_client(
        &HWIDeviceType::Trezor,
        "webusb:000:1:2",
        true,
        HWIChain::Test,
    );
    assert_eq!(c.function, "get_client");
    assert_eq!(
        c.args,
        vec![
            PyValue::Str("trezor".to_string()),
            PyValue::Str("webusb:000:1:2".to_string()),
            PyValue::Str(String::new()),
            PyValue::Bool(true),
            PyValue::Chain(HWIChain::Test),
        ]
    );
}

#[test]
fn test_plan_master_xpub() {
    let c = py_get_master_xpub(HWIAddressType::Tap, 0);
    assert_eq!(c.function, "getmasterxpub");
    assert_eq!(
        c.args,
        vec![
            PyValue::Client,
            PyValue::AddrType(HWIAddressType::Tap),
            PyValue::Num(0),
        ]
    );
}

#[test]
fn test_plan_sign_message() {
    let c = py_sign_message("hello", "m/44'/1'/0'/0/0");
    assert_eq!(c.function, "signmessage");
    assert_eq!(
        c.args,
        vec![
            PyValue::Client,
            PyValue::Str("hello".to_string()),
            PyValue::Str("m/44'/1'/0'/0/0".to_string()),
        ]
    );
}

#[test]
fn test_plan_keypool_order() {
    let c = py_get_keypool(
        true,
        false,
        HWIAddressType::Legacy,
        false,
        8,
        Some("m/44'/1'/0'/*"),
        1,
        5,
    );
    assert_eq!(c.function, "getkeypool");
    assert_eq!(
        c.args,
        vec![
            PyValue::Client,
            PyValue::Str("m/44'/1'/0'/*".to_string()),
            PyValue::Num(1),
            PyValue::Num(5),
            PyValue::Bool(false),
            PyValue::Bool(true),
            PyValue::Num(8),
            PyValue::AddrType(HWIAddressType::Legacy),
            PyValue::Bool(false),
        ]
    );
    let c = py_get_keypool(false, true, HWIAddressType::Wit, true, 0, None, 0, 10);
    assert_eq!(c.args[1], PyValue::NoneVal);
}

#[test]
fn test_plan_display_address_path() {
    let c = py_display_address_path("m/84'/1'/0'/0/0", HWIAddressType::Wit);
    assert_eq!(c.function, "displayaddress");
    assert_eq!(
        c.args,
        vec![
            PyValue::Client,
            PyValue::Str("m/84'/1'/0'/0/0".to_string()),
            PyValue::NoneVal,
            PyValue::AddrType(HWIAddressType::Wit),
        ]
    );
}

#[test]
fn test_plan_restore_word_count() {
    let c = py_restore_device("My Label", 18);
    assert_eq!(c.function, "restore_device");
    assert_eq!(
        c.args,
        vec![
            PyValue::Client,
            PyValue::Str("My Label".to_string()),
            PyValue::Byte(18),
        ]
    );
}

#[test]
fn test_plan_pin_calls() {
    let c = hwi::pyplan::py_prompt_pin();
    assert_eq!(c.function, "prompt_pin");
    assert_eq!(c.args, vec![PyValue::Client]);
    let c = hwi::pyplan::py_send_pin("123456");
    assert_eq!(c.function, "send_pin");
    assert_eq!(c.args, vec![PyValue::Client, PyValue::Str("123456".to_string())]);
}

#[test]
fn test_log_level_values() {
    assert_eq!(LogLevel::DEBUG.as_value(), 10);
    assert_eq!(LogLevel::INFO.as_value(), 20);
    assert_eq!(LogLevel::WARNING.as_value(), 30);
    assert_eq!(LogLevel::ERROR.as_value(), 40);
    assert_eq!(LogLevel::CRITICAL.as_value(), 50);
}
