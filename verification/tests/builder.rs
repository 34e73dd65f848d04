//! The command builder and the string utilities: exact token
//! sequences, checksum stripping, decimal and hex rendering, base64.

use hwi::b64::b64_decode;
use hwi::b64::b64_encode;
use hwi::commands::HWICommand;
use hwi::commands::HWIFlag;
use hwi::commands::HWISubcommand;
use hwi::strutil::bytes_to_hex;
use hwi::strutil::strip_checksum;
use hwi::strutil::u32_to_dec;
use hwi::types::HWIAddressType;
use hwi::types::HWIChain;
use hwi::types::HWIDeviceType;
use hwi::types::fingerprint_hex;
use hwi::types::parse_fingerprint;

fn toks(c: &HWICommand) -> Vec<String> {
    c.args().clone()
}

#[test]
fn test_builder_enumerate_with_chain() {
    let mut c = HWICommand::new();
    c.add_subcommand(HWISubcommand::Enumerate);
    c.add_flag(HWIFlag::Chain(HWIChain::Test));
    assert_eq!(toks(&c), vec!["enumerate", "--chain", "test"]);
}

#[test]
fn test_builder_is_deterministic() {
    let build = || {
        let mut c = HWICommand::new();
        c.add_subcommand(HWISubcommand::GetXpub);
        c.add_expert(true);
        c.add_chain(HWIChain::Signet);
        c.add_path("m/44'/1'/0'", true, false);
        c.into_args()
    };
    assert_eq!(build(), build());
    assert_eq!(
        build(),
        vec!["getxpub", "--expert", "--chain", "signet", "--path", "m/44'/1'/0'"]
    );
}

#[test]
fn test_builder_subcommand_names() {
    let all = [
        (HWISubcommand::Enumerate, "enumerate"),
        (HWISubcommand::GetMasterXpub, "getmasterxpub"),
        (HWISubcommand::SignTx, "signtx"),
        (HWISubcommand::GetXpub, "getxpub"),
        (HWISubcommand::SignMessage, "signmessage"),
        (HWISubcommand::GetKeypool, "getkeypool"),
        (HWISubcommand::GetDescriptors, "getdescriptors"),
        (HWISubcommand::DisplayAddress, "displayaddress"),
        (HWISubcommand::Setup, "setup"),
        (HWISubcommand::Wipe, "wipe"),
        (HWISubcommand::Restore, "restore"),
        (HWISubcommand::Backup, "backup"),
        (HWISubcommand::PromptPin, "promptpin"),
        (HWISubcommand::SendPin, "sendpin"),
    ];
    for (sub, name) in all {
        let mut c = HWICommand::new();
        c.add_subcommand(sub);
        assert_eq!(toks(&c), vec![name]);
    }
}

#[test]
fn test_builder_path_star() {
    let mut c = HWICommand::new();
    c.add_path("m/44'/1'/0'", true, true);
    assert_eq!(toks(&c), vec!["--path", "m/44'/1'/0'/*"]);
    let mut c = HWICommand::new();
    c.add_path("m/49'/1'/0'", false, false);
    assert_eq!(toks(&c), vec!["m/49'/1'/0'"]);
}

#[test]
fn test_builder_message_is_one_token() {
    let mut c = HWICommand::new();
    c.add_subcommand(HWISubcommand::SignMessage);
    c.add_message("I love BDK wallet; rm -rf /");
    let v = toks(&c);
    assert_eq!(v.len(), 2);
    assert_eq!(v[1], "I love BDK wallet; rm -rf /");
}

#[test]
fn test_builder_flags_and_values() {
    let mut c = HWICommand::new();
    c.add_flag(HWIFlag::DevicePath("webusb:000:1:2".to_string()));
    c.add_flag(HWIFlag::DeviceType("trezor".to_string()));
    c.add_flag(HWIFlag::Password("pa ss".to_string()));
    c.add_flag(HWIFlag::Fingerprint([0xab, 0x01, 0xcd, 0x23]));
    assert_eq!(
        toks(&c),
        vec![
            "--device-path",
            "webusb:000:1:2",
            "--device-type",
            "trezor",
            "--password",
            "pa ss",
            "--fingerprint",
            "ab01cd23",
        ]
    );
}

#[test]
fn test_builder_addr_type_tokens() {
    for (t, name) in [
        (HWIAddressType::Legacy, "legacy"),
        (HWIAddressType::Sh_Wit, "sh_wit"),
        (HWIAddressType::Wit, "wit"),
        (HWIAddressType::Tap, "tap"),
    ] {
        let mut c = HWICommand::new();
        c.add_address_type(t);
        assert_eq!(toks(&c), vec!["--addr-type", name]);
    }
}

#[test]
fn test_builder_keypool_negation_and_bounds() {
    let mut c = HWICommand::new();
    c.add_subcommand(HWISubcommand::GetKeypool);
    c.add_keypool(false);
    c.add_internal(true);
    c.add_start_end(5, 5);
    assert_eq!(toks(&c), vec!["getkeypool", "--nokeypool", "--internal", "5", "5"]);
    let mut c = HWICommand::new();
    c.add_keypool(true);
    c.add_internal(false);
    assert_eq!(toks(&c), Vec::<String>::new());
}

#[test]
fn test_builder_descriptor_and_account() {
    let mut c = HWICommand::new();
    c.add_descriptor("wpkh(abc)/0/*");
    c.add_account(10);
    assert_eq!(toks(&c), vec!["--desc", "wpkh(abc)/0/*", "--account", "10"]);
}

#[test]
fn test_strip_checksum_cases() {
    assert_eq!(strip_checksum("wpkh(abc)/0/*#abcdef12"), "wpkh(abc)/0/*");
    assert_eq!(strip_checksum("wpkh(abc)/0/*"), "wpkh(abc)/0/*");
    assert_eq!(strip_checksum("#abcdef12"), "");
    assert_eq!(strip_checksum(""), "");
    assert_eq!(strip_checksum("a#b#c"), "a");
    assert_eq!(strip_checksum("wpkh(xé)/0/*#ab"), "wpkh(xé)/0/*");
}

#[test]
fn test_decimal_rendering() {
    assert_eq!(u32_to_dec(0), "0");
    assert_eq!(u32_to_dec(7), "7");
    assert_eq!(u32_to_dec(45), "45");
    assert_eq!(u32_to_dec(1000), "1000");
    assert_eq!(u32_to_dec(u32::MAX), "4294967295");
}

#[test]
fn test_hex_rendering() {
    assert_eq!(bytes_to_hex(&[]), "");
    assert_eq!(bytes_to_hex(&[0x00, 0xff, 0x1a]), "00ff1a");
}

#[test]
fn test_fingerprint_round_trip() {
    let fp = [0xab, 0x01, 0xcd, 0x23];
    let hex = fingerprint_hex(&fp);
    assert_eq!(hex, "ab01cd23");
    assert_eq!(parse_fingerprint(&hex), Some(fp));
    assert_eq!(parse_fingerprint("AB01CD23"), Some(fp));
    assert_eq!(parse_fingerprint("ab01cd2"), None);
    assert_eq!(parse_fingerprint("ab01cd234"), None);
    assert_eq!(parse_fingerprint("ab01cdx3"), None);
    assert_eq!(parse_fingerprint("00000000"), Some([0, 0, 0, 0]));
}

#[test]
fn test_base64_known_vectors() {
    let cases: [(&[u8], &str); 6] = [
        (b"", ""),
        (b"f", "Zg=="),
        (b"fo", "Zm8="),
        (b"foo", "Zm9v"),
        (b"foob", "Zm9vYg=="),
        (b"foobar", "Zm9vYmFy"),
    ];
    for (bytes, text) in cases {
        assert_eq!(b64_encode(bytes), text);
        assert_eq!(b64_decode(text).as_deref(), Some(bytes));
    }
}

#[test]
fn test_base64_rejects_malformed() {
    assert_eq!(b64_decode("Zg="), None);
    assert_eq!(b64_decode("Z"), None);
    assert_eq!(b64_decode("Zh=="), None);
    assert_eq!(b64_decode("Zm9"), None);
    assert_eq!(b64_decode("Zm9v!A=="), None);
    assert_eq!(b64_decode("====" ), None);
}

#[test]
fn test_base64_round_trip_bytes() {
    let data: Vec<u8> = (0u16..=255u16).map(|b| b as u8).collect();
    for cut in [0usize, 1, 2, 3, 255, 256] {
        let slice = &data[..cut];
        assert_eq!(b64_decode(&b64_encode(slice)).as_deref(), Some(slice));
    }
}

#[test]
fn test_device_type_names() {
    assert!(matches!(HWIDeviceType::from_name("ledger"), HWIDeviceType::Ledger));
    assert!(matches!(HWIDeviceType::from_name("trezor"), HWIDeviceType::Trezor));
    assert!(matches!(HWIDeviceType::from_name("digitalbitbox"), HWIDeviceType::BitBox01));
    assert!(matches!(HWIDeviceType::from_name("bitbox02"), HWIDeviceType::BitBox02));
    assert!(matches!(HWIDeviceType::from_name("keepkey"), HWIDeviceType::KeepKey));
    assert!(matches!(HWIDeviceType::from_name("coldcard"), HWIDeviceType::Coldcard));
    assert!(matches!(HWIDeviceType::from_name("jade"), HWIDeviceType::Jade));
    match HWIDeviceType::from_name("somethingelse") {
        HWIDeviceType::Other(n) => assert_eq!(n, "somethingelse"),
        _ => panic!("expected the open variant"),
    }
    assert_eq!(HWIDeviceType::Jade.name(), "jade");
    assert_eq!(HWIDeviceType::Other("x".to_string()).name(), "x");
    assert!(HWIDeviceType::Trezor.same_type(&HWIDeviceType::Trezor));
    assert!(!HWIDeviceType::Trezor.same_type(&HWIDeviceType::Jade));
}

#[test]
fn test_chain_names() {
    assert_eq!(HWIChain::Main.name(), "MAIN");
    assert_eq!(HWIChain::Test.flag_name(), "test");
    assert_eq!(HWIChain::Regtest.flag_name(), "regtest");
    assert_eq!(HWIChain::Signet.name(), "SIGNET");
}
