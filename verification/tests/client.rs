//! End-to-end scenarios through the client facade, against mocked
//! executors standing in for the external tool.

use hwi::backend::HWIBinaryExecutor;
use hwi::binary::BinaryHWIImplementation;
use hwi::error::Error;
use hwi::interface::HWIClient;
use hwi::types::HWIAddressType;
use hwi::types::HWIChain;
use hwi::types::HWIDevice;
use hwi::types::HWIDeviceType;
use hwi::types::LogLevel;

const XPUB: &str = "xpub661MyMwAqRbcFtXgS5sYJABqqG9YLmC4Q1Rdap9gSE8NqtwybGhePY2gZ29ESFjqJoCu1Rupje8YtGqsefD265TMg7usUDFdp6W1EGMcet8";
const ADDRESS: &str = "1A1zP1eP5QGefi2DMPTfTL5SLmv7DivfNa";
const ENUMERATION: &str = "[{\"type\": \"trezor\", \"model\": \"trezor_1\", \
    \"path\": \"webusb:000:1:2\", \"needs_pin_sent\": false, \
    \"needs_passphrase_sent\": false, \"fingerprint\": \"00000000\"}]";

fn test_device() -> HWIDevice {
    HWIDevice {
        device_type: HWIDeviceType::Trezor,
        model: "trezor_1".to_string(),
        path: "webusb:000:1:2".to_string(),
        needs_pin_sent: false,
        needs_passphrase_sent: false,
        fingerprint: [0, 0, 0, 0],
    }
}

fn client_of<X: HWIBinaryExecutor>() -> HWIClient<BinaryHWIImplementation<X>> {
    HWIClient::<BinaryHWIImplementation<X>>::get_client(&test_device(), false, HWIChain::Test)
        .unwrap()
}

#[derive(Debug)]
struct XpubBackend;

impl HWIBinaryExecutor for XpubBackend {
    fn execute_command(args: Vec<String>) -> Result<String, Error> {
        assert_eq!(
            args,
            vec![
                "--fingerprint",
                "00000000",
                "--chain",
                "test",
                "getxpub",
                "m/44'/1'/0'/0/0",
            ]
        );
        Ok(format!("{{\"xpub\": \"{}\"}}", XPUB))
    }
}

#[test]
fn test_client_get_xpub_ok() {
    let client = client_of::<XpubBackend>();
    let xpub = client.get_xpub("44'/1'/0'/0/0", false).unwrap();
    assert_eq!(xpub.xpub, XPUB);
}

#[derive(Debug)]
struct MalformedBackend;

impl HWIBinaryExecutor for MalformedBackend {
    fn execute_command(_args: Vec<String>) -> Result<String, Error> {
        Ok("I am not JSON".to_string())
    }
}

#[test]
fn test_client_get_xpub_malformed_json() {
    let client = client_of::<MalformedBackend>();
    match client.get_xpub("44'/1'/0'/0/0", false) {
        Err(Error::Json(m)) => {
            assert!(m.contains("I am not JSON"), "the offending text must be embedded");
        },
        _ => panic!("malformed JSON must surface as the JSON-decode kind"),
    }
}

#[derive(Debug)]
struct MasterXpubBackend;

impl HWIBinaryExecutor for MasterXpubBackend {
    fn execute_command(args: Vec<String>) -> Result<String, Error> {
        assert_eq!(
            args,
            vec![
                "--fingerprint",
                "00000000",
                "--expert",
                "--chain",
                "main",
                "getmasterxpub",
                "--addr-type",
                "wit",
                "--account",
                "3",
            ]
        );
        Ok(format!("{{\"xpub\": \"{}\"}}", XPUB))
    }
}

#[test]
fn test_client_master_xpub_token_order() {
    let client = HWIClient::<BinaryHWIImplementation<MasterXpubBackend>>::get_client(
        &test_device(),
        true,
        HWIChain::Main,
    )
    .unwrap();
    let xpub = client.get_master_xpub(HWIAddressType::Wit, 3).unwrap();
    assert_eq!(xpub.xpub, XPUB);
}

#[derive(Debug)]
struct DisplayBackend;

impl HWIBinaryExecutor for DisplayBackend {
    fn execute_command(args: Vec<String>) -> Result<String, Error> {
        for a in &args {
            assert!(
                !a.contains('#'),
                "a descriptor checksum leaked into a command argument"
            );
        }
        assert!(args.contains(&"--desc".to_string()));
        assert!(args.contains(&"wpkh(abc)/0/*".to_string()));
        Ok(format!("{{\"address\": \"{}\"}}", ADDRESS))
    }
}

#[test]
fn test_client_display_address_strips_checksum() {
    let client = client_of::<DisplayBackend>();
    let desc = "wpkh(abc)/0/*#abcdef12".to_string();
    let a = client.display_address_with_desc(&desc).unwrap();
    assert_eq!(a.address, ADDRESS);
}

#[derive(Debug)]
struct DisplayPathBackend;

impl HWIBinaryExecutor for DisplayPathBackend {
    fn execute_command(args: Vec<String>) -> Result<String, Error> {
        assert_eq!(
            args,
            vec![
                "--fingerprint",
                "00000000",
                "--chain",
                "test",
                "displayaddress",
                "--path",
                "m/44'/1'/0'/0/0",
                "--addr-type",
                "legacy",
            ]
        );
        Ok(format!("{{\"address\": \"{}\"}}", ADDRESS))
    }
}

#[test]
fn test_client_display_address_with_path() {
    let client = client_of::<DisplayPathBackend>();
    let a = client
        .display_address_with_path("44'/1'/0'/0/0", HWIAddressType::Legacy)
        .unwrap();
    assert_eq!(a.address, ADDRESS);
}

#[derive(Debug)]
struct KeypoolBackend;

impl HWIBinaryExecutor for KeypoolBackend {
    fn execute_command(args: Vec<String>) -> Result<String, Error> {
        assert_eq!(
            args,
            vec![
                "--fingerprint",
                "00000000",
                "--chain",
                "test",
                "getkeypool",
                "--keypool",
                "--addr-type",
                "legacy",
                "--account",
                "0",
                "5",
                "5",
            ]
        );
        Ok("[{\"desc\": \"wpkh(abc)/44'/1'/0'/0/*\", \"range\": [5, 5], \
            \"timestamp\": \"now\", \"internal\": false, \"keypool\": true, \
            \"watchonly\": false}]"
            .to_string())
    }
}

#[test]
fn test_client_keypool_single_point_range() {
    let client = client_of::<KeypoolBackend>();
    let v = client
        .get_keypool(true, false, HWIAddressType::Legacy, false, None, None, 5, 5)
        .unwrap();
    assert_eq!(v.len(), 1);
    assert_eq!(v[0].range, vec![5, 5]);
}

#[derive(Debug)]
struct EnumBackend;

impl HWIBinaryExecutor for EnumBackend {
    fn execute_command(args: Vec<String>) -> Result<String, Error> {
        assert_eq!(args[args.len() - 1], "enumerate");
        Ok(ENUMERATION.to_string())
    }
}

#[test]
fn test_client_enumerate() {
    let v = HWIClient::<BinaryHWIImplementation<EnumBackend>>::enumerate().unwrap();
    assert_eq!(v.len(), 1);
    let d = v[0].as_ref().unwrap();
    assert_eq!(d.model, "trezor_1");
}

#[test]
fn test_select_device_first_match() {
    let matching = test_device();
    let mut other = test_device();
    other.device_type = HWIDeviceType::Jade;
    let mut later = test_device();
    later.model = "trezor_2".to_string();
    let devices: Vec<Result<HWIDevice, Error>> = vec![
        Err(Error::Hwi("x".to_string(), None)),
        Ok(other),
        Ok(matching),
        Ok(later),
    ];
    let picked =
        hwi::binary::select_device(&devices, Some(&HWIDeviceType::Trezor), None).unwrap();
    assert_eq!(picked.model, "trezor_1");
    let by_fp = hwi::binary::select_device(&devices, None, Some("00000000")).unwrap();
    assert_eq!(by_fp.device_type, HWIDeviceType::Jade);
    match hwi::binary::select_device(&devices, Some(&HWIDeviceType::Ledger), None) {
        Err(Error::Hwi(m, None)) => assert_eq!(m, "No matching device found"),
        _ => panic!("expected the no-matching-device failure"),
    }
}

#[test]
fn test_global_args_refuses_missing_device() {
    match hwi::binary::global_args(None, false, None, true) {
        Err(Error::Hwi(m, None)) => assert_eq!(m, "Device fingerprint not set"),
        _ => panic!("a per-device call without a device must be refused"),
    }
    let v = hwi::binary::global_args(None, true, None, false).unwrap();
    assert_eq!(v, vec!["--expert"]);
}

#[test]
fn test_client_find_device() {
    let found = HWIClient::<BinaryHWIImplementation<EnumBackend>>::find_device(
        None,
        Some(HWIDeviceType::Trezor),
        None,
        false,
        HWIChain::Test,
    );
    assert!(found.is_ok());
    let missing = HWIClient::<BinaryHWIImplementation<EnumBackend>>::find_device(
        None,
        Some(HWIDeviceType::Ledger),
        None,
        false,
        HWIChain::Test,
    );
    match missing {
        Err(Error::Hwi(m, None)) => assert_eq!(m, "No matching device found"),
        _ => panic!("expected no matching device"),
    }
    let by_fp = HWIClient::<BinaryHWIImplementation<EnumBackend>>::find_device(
        None,
        None,
        Some("00000000"),
        false,
        HWIChain::Test,
    );
    assert!(by_fp.is_ok());
}

#[derive(Debug)]
struct StatusTrueBackend;

impl HWIBinaryExecutor for StatusTrueBackend {
    fn execute_command(_args: Vec<String>) -> Result<String, Error> {
        Ok("{\"success\": true}".to_string())
    }
}

#[derive(Debug)]
struct StatusFalseBackend;

impl HWIBinaryExecutor for StatusFalseBackend {
    fn execute_command(_args: Vec<String>) -> Result<String, Error> {
        Ok("{\"success\": false}".to_string())
    }
}

#[derive(Debug)]
struct PinBackend;

impl HWIBinaryExecutor for PinBackend {
    fn execute_command(args: Vec<String>) -> Result<String, Error> {
        if args.contains(&"sendpin".to_string()) {
            assert_eq!(args[args.len() - 1], "123456");
        } else {
            assert_eq!(args[args.len() - 1], "promptpin");
        }
        Ok("{\"success\": true}".to_string())
    }
}

#[test]
fn test_client_pin_round() {
    let client = client_of::<PinBackend>();
    assert!(client.prompt_pin().is_ok());
    assert!(client.send_pin("123456").is_ok());
}

#[test]
fn test_client_status_operations() {
    let client = client_of::<StatusTrueBackend>();
    assert!(client.wipe_device().is_ok());
    assert!(client.toggle_passphrase().is_ok());
    assert!(client.setup_device(Some("My Label"), None).is_ok());
    assert!(client.restore_device(Some("My Label"), None).is_ok());
    assert!(client.backup_device(Some("My Label"), None).is_ok());

    let failing = client_of::<StatusFalseBackend>();
    match failing.wipe_device() {
        Err(Error::Hwi(m, None)) => assert_eq!(m, "request returned with failure"),
        _ => panic!("a false status must become the generic tool failure"),
    }
}

#[derive(Debug)]
struct VersionBackend;

impl HWIBinaryExecutor for VersionBackend {
    fn execute_command(args: Vec<String>) -> Result<String, Error> {
        assert_eq!(args, vec!["--version"]);
        Ok("hwi 2.1.1".to_string())
    }
}

#[test]
fn test_client_get_version() {
    let v = HWIClient::<BinaryHWIImplementation<VersionBackend>>::get_version().unwrap();
    assert_eq!(v, "hwi 2.1.1");
}

#[test]
fn test_client_set_log_level_not_implemented() {
    let r = HWIClient::<BinaryHWIImplementation<VersionBackend>>::set_log_level(LogLevel::DEBUG);
    assert!(matches!(r, Err(Error::NotImplemented)));
    let r = HWIClient::<BinaryHWIImplementation<VersionBackend>>::install_hwilib(Some("2.1.1"));
    assert!(matches!(r, Err(Error::NotImplemented)));
}

#[derive(Debug)]
struct DescriptorBackend;

impl HWIBinaryExecutor for DescriptorBackend {
    fn execute_command(args: Vec<String>) -> Result<String, Error> {
        assert!(args.contains(&"getdescriptors".to_string()));
        assert!(args.contains(&"--account".to_string()));
        assert!(args.contains(&"10".to_string()));
        Ok("{\"internal\": [\"wpkh(a)/1/*\"], \"receive\": [\"wpkh(a)/0/*\"]}".to_string())
    }
}

#[test]
fn test_client_get_string_descriptors() {
    let client = client_of::<DescriptorBackend>();
    let d = client.get_descriptors::<String>(Some(10)).unwrap();
    assert!(!d.internal.is_empty());
    assert!(!d.receive.is_empty());
    assert_eq!(d.receive[0], "wpkh(a)/0/*");
}

#[derive(Debug)]
struct SignBackend;

impl HWIBinaryExecutor for SignBackend {
    fn execute_command(args: Vec<String>) -> Result<String, Error> {
        assert!(args.contains(&"signmessage".to_string()));
        assert!(args.contains(&"I love BDK wallet".to_string()));
        assert!(args.contains(&"m/44'/1'/0'/0/0".to_string()));
        Ok("{\"signature\": \"Zm9vYmFy\"}".to_string())
    }
}

#[test]
fn test_client_sign_message() {
    let client = client_of::<SignBackend>();
    let sig = client.sign_message("I love BDK wallet", "44'/1'/0'/0/0").unwrap();
    assert_eq!(sig.signature, b"foobar");
}

#[derive(Debug)]
struct SignTxEchoBackend;

impl HWIBinaryExecutor for SignTxEchoBackend {
    fn execute_command(args: Vec<String>) -> Result<String, Error> {
        assert!(args.contains(&"signtx".to_string()));
        let psbt = args.last().unwrap();
        Ok(format!("{{\"psbt\": \"{}\"}}", psbt))
    }
}

#[test]
fn test_client_sign_tx() {
    let tx = bitcoin::Transaction {
        version: bitcoin::transaction::Version::TWO,
        lock_time: bitcoin::absolute::LockTime::from_consensus(0),
        input: vec![],
        output: vec![],
    };
    let psbt = bitcoin::Psbt::from_unsigned_tx(tx).unwrap();
    let b64 = hwi::b64::b64_encode(&psbt.serialize());
    let wire = hwi::types::HWIPartiallySignedTransaction::new(b64.clone()).unwrap();
    let client = client_of::<SignTxEchoBackend>();
    let signed = client.sign_tx(&wire).unwrap();
    assert_eq!(signed.psbt, b64);
}

#[derive(Debug)]
struct UdevBackend;

impl HWIBinaryExecutor for UdevBackend {
    fn execute_command(args: Vec<String>) -> Result<String, Error> {
        assert_eq!(args, vec!["installudevrules", "--location", "/lib/udev/rules.d/"]);
        Ok("{\"success\": true}".to_string())
    }
}

#[test]
fn test_client_install_udev_rules() {
    let r = HWIClient::<BinaryHWIImplementation<UdevBackend>>::install_udev_rules(None, None);
    assert!(r.is_ok());
}

#[derive(Debug)]
struct SpawnFailureBackend;

impl HWIBinaryExecutor for SpawnFailureBackend {
    fn execute_command(_args: Vec<String>) -> Result<String, Error> {
        Err(Error::Io("no such binary".to_string()))
    }
}

#[test]
fn test_client_executor_failure_propagates() {
    let client = client_of::<SpawnFailureBackend>();
    assert!(matches!(
        client.get_xpub("44'/1'/0'/0/0", false),
        Err(Error::Io(_))
    ));
}
