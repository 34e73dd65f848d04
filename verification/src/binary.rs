//! The out-of-process backend: builds the exact argument vector of
//! each operation — global flags first (fingerprint, expert, chain),
//! then the subcommand and its own tokens — and hands it to a
//! user-supplied executor. Per-device calls refuse to run without a
//! device identity, at this lowest layer, so no malformed command is
//! ever sent.

use vstd::prelude::*;

use crate::backend::HWIBinaryExecutor;
use crate::backend::HWIImplementation;
use crate::decode::decode_devices;
use crate::error::Error;
use crate::json::parse_json;
use crate::strutil::lemma_views_push;
use crate::strutil::spec_dec;
use crate::strutil::spec_hex;
use crate::strutil::spec_views;
use crate::strutil::str_eq;
use crate::strutil::u32_to_dec;
use crate::types::HWIAddressType;
use crate::types::HWIChain;
use crate::types::HWIDevice;
use crate::types::HWIDeviceType;
use crate::types::LogLevel;
use crate::types::fingerprint_hex;
use crate::types::spec_addr_type_flag;
use crate::types::spec_chain_flag;

verus! {

/// The global tokens that precede every operation's own tokens: the
/// device fingerprint when the operation is bound to a device, the
/// expert flag, and the chain selector.
pub open spec fn spec_global_tokens(
    fp: Option<Seq<u8>>,
    expert: bool,
    chain: Option<HWIChain>,
) -> Seq<Seq<char>> {
    (match fp {
        Some(b) => seq!["--fingerprint"@, spec_hex(b)],
        None => Seq::<Seq<char>>::empty(),
    }) + (if expert {
        seq!["--expert"@]
    } else {
        Seq::<Seq<char>>::empty()
    }) + (match chain {
        Some(c) => seq!["--chain"@, spec_chain_flag(c)],
        None => Seq::<Seq<char>>::empty(),
    })
}

/// The fingerprint tokens the caller asked for, as the spec above
/// sees them.
pub open spec fn spec_fp_of(device: Option<&HWIDevice>, needs_device: bool) -> Option<Seq<u8>> {
    if needs_device {
        Some(device.unwrap().fingerprint@)
    } else {
        None
    }
}

fn push_tok(v: &mut Vec<String>, t: String)
    ensures
        spec_views(final(v)@) =~= spec_views(old(v)@).push(t@),
{
    proof {
        lemma_views_push(v@, t);
    }
    v.push(t);
}

/// Builds the global prefix of one invocation. A per-device call
/// without a bound device is refused here, the lowest layer, with the
/// missing-device-identity error.
pub fn global_args(
    device: Option<&HWIDevice>,
    expert: bool,
    chain: Option<&HWIChain>,
    needs_device: bool,
) -> (r: Result<Vec<String>, Error>)
    ensures
        match r {
            Ok(v) => (needs_device ==> device is Some) && spec_views(v@) =~= spec_global_tokens(
                spec_fp_of(device, needs_device),
                expert,
                match chain {
                    Some(c) => Some(*c),
                    None => None,
                },
            ),
            Err(e) => needs_device && device is None && (e matches Error::Hwi(m, c) && m@
                == "Device fingerprint not set"@ && c is None),
        },
{
    let mut v: Vec<String> = Vec::new();
    if needs_device {
        match device {
            Some(d) => {
                push_tok(&mut v, "--fingerprint".to_owned());
                push_tok(&mut v, fingerprint_hex(&d.fingerprint));
            },
            None => {
                return Err(Error::hwi_plain("Device fingerprint not set"));
            },
        }
    }
    if expert {
        push_tok(&mut v, "--expert".to_owned());
    }
    match chain {
        Some(c) => {
            push_tok(&mut v, "--chain".to_owned());
            push_tok(&mut v, c.flag_name());
        },
        None => {
        },
    }
    proof {
        assert(spec_views(v@) =~= spec_global_tokens(
            spec_fp_of(device, needs_device),
            expert,
            match chain {
                Some(c) => Some(*c),
                None => None,
            },
        ));
    }
    Ok(v)
}

/// The argument vector of an enumeration call: never bound to a
/// device; a password travels as one opaque token when given.
pub fn enumerate_args(expert: bool, chain: Option<&HWIChain>, password: Option<&str>) -> (v: Vec<
    String,
>)
    ensures
        spec_views(v@) =~= spec_global_tokens(
            None,
            expert,
            match chain {
                Some(c) => Some(*c),
                None => None,
            },
        ) + seq!["enumerate"@] + (match password {
            Some(p) => seq!["--password"@, p@],
            None => Seq::<Seq<char>>::empty(),
        }),
{
    let mut v = match global_args(None, expert, chain, false) {
        Ok(v) => v,
        Err(_) => vstd::pervasive::unreached(),
    };
    push_tok(&mut v, "enumerate".to_owned());
    match password {
        Some(p) => {
            push_tok(&mut v, "--password".to_owned());
            push_tok(&mut v, p.to_owned());
        },
        None => {
        },
    }
    v
}

/// The argument vector of a master-xpub call.
pub fn master_xpub_args(
    device: Option<&HWIDevice>,
    expert: bool,
    chain: &HWIChain,
    addrtype: HWIAddressType,
    account: u32,
) -> (r: Result<Vec<String>, Error>)
    ensures
        match r {
            Ok(v) => device is Some && spec_views(v@) =~= spec_global_tokens(
                spec_fp_of(device, true),
                expert,
                Some(*chain),
            ) + seq![
                "getmasterxpub"@,
                "--addr-type"@,
                spec_addr_type_flag(addrtype),
                "--account"@,
                spec_dec(account as nat),
            ],
            Err(e) => device is None && (e matches Error::Hwi(m, c) && m@
                == "Device fingerprint not set"@ && c is None),
        },
{
    let mut v = match global_args(device, expert, Some(chain), true) {
        Ok(v) => v,
        Err(e) => {
            return Err(e);
        },
    };
    push_tok(&mut v, "getmasterxpub".to_owned());
    push_tok(&mut v, "--addr-type".to_owned());
    push_tok(&mut v, addrtype.flag_name());
    push_tok(&mut v, "--account".to_owned());
    push_tok(&mut v, u32_to_dec(account));
    Ok(v)
}

/// The argument vector of a transaction-signing call: the serialized
/// transaction is one opaque token.
pub fn sign_tx_args(device: Option<&HWIDevice>, expert: bool, chain: &HWIChain, psbt: &str) -> (r:
    Result<Vec<String>, Error>)
    ensures
        match r {
            Ok(v) => device is Some && spec_views(v@) =~= spec_global_tokens(
                spec_fp_of(device, true),
                expert,
                Some(*chain),
            ) + seq!["signtx"@, psbt@],
            Err(e) => device is None && (e matches Error::Hwi(m, c) && m@
                == "Device fingerprint not set"@ && c is None),
        },
{
    let mut v = match global_args(device, expert, Some(chain), true) {
        Ok(v) => v,
        Err(e) => {
            return Err(e);
        },
    };
    push_tok(&mut v, "signtx".to_owned());
    push_tok(&mut v, psbt.to_owned());
    Ok(v)
}

/// The argument vector of an xpub-at-path call.
pub fn get_xpub_args(device: Option<&HWIDevice>, expert: bool, chain: &HWIChain, path: &str) -> (r:
    Result<Vec<String>, Error>)
    ensures
        match r {
            Ok(v) => device is Some && spec_views(v@) =~= spec_global_tokens(
                spec_fp_of(device, true),
                expert,
                Some(*chain),
            ) + seq!["getxpub"@, path@],
            Err(e) => device is None && (e matches Error::Hwi(m, c) && m@
                == "Device fingerprint not set"@ && c is None),
        },
{
    let mut v = match global_args(device, expert, Some(chain), true) {
        Ok(v) => v,
        Err(e) => {
            return Err(e);
        },
    };
    push_tok(&mut v, "getxpub".to_owned());
    push_tok(&mut v, path.to_owned());
    Ok(v)
}

/// The argument vector of a message-signing call: the message is one
/// opaque token, never interpreted by a shell.
pub fn sign_message_args(
    device: Option<&HWIDevice>,
    expert: bool,
    chain: &HWIChain,
    message: &str,
    path: &str,
) -> (r: Result<Vec<String>, Error>)
    ensures
        match r {
            Ok(v) => device is Some && spec_views(v@) =~= spec_global_tokens(
                spec_fp_of(device, true),
                expert,
                Some(*chain),
            ) + seq!["signmessage"@, message@, path@],
            Err(e) => device is None && (e matches Error::Hwi(m, c) && m@
                == "Device fingerprint not set"@ && c is None),
        },
{
    let mut v = match global_args(device, expert, Some(chain), true) {
        Ok(v) => v,
        Err(e) => {
            return Err(e);
        },
    };
    push_tok(&mut v, "signmessage".to_owned());
    push_tok(&mut v, message.to_owned());
    push_tok(&mut v, path.to_owned());
    Ok(v)
}

/// The operation-specific tokens of a key-pool call, in the tool's
/// fixed order.
pub open spec fn spec_keypool_tokens(
    keypool: bool,
    internal: bool,
    addr_type: HWIAddressType,
    addr_all: bool,
    account: u32,
    path: Option<&str>,
    start: u32,
    end: u32,
) -> Seq<Seq<char>> {
    seq!["getkeypool"@] + (if keypool {
        seq!["--keypool"@]
    } else {
        Seq::<Seq<char>>::empty()
    }) + (if internal {
        seq!["--internal"@]
    } else {
        Seq::<Seq<char>>::empty()
    }) + seq!["--addr-type"@, spec_addr_type_flag(addr_type)] + (if addr_all {
        seq!["--addr-all"@]
    } else {
        Seq::<Seq<char>>::empty()
    }) + seq!["--account"@, spec_dec(account as nat)] + (match path {
        Some(p) => seq!["--path"@, p@],
        None => Seq::<Seq<char>>::empty(),
    }) + seq![spec_dec(start as nat), spec_dec(end as nat)]
}

/// The argument vector of a key-pool call.
#[allow(clippy::too_many_arguments)]
#[verifier::rlimit(80)]
pub fn keypool_args(
    device: Option<&HWIDevice>,
    expert: bool,
    chain: &HWIChain,
    keypool: bool,
    internal: bool,
    addr_type: HWIAddressType,
    addr_all: bool,
    account: u32,
    path: Option<&str>,
    start: u32,
    end: u32,
) -> (r: Result<Vec<String>, Error>)
    ensures
        match r {
            Ok(v) => device is Some && spec_views(v@) =~= spec_global_tokens(
                spec_fp_of(device, true),
                expert,
                Some(*chain),
            ) + spec_keypool_tokens(
                keypool,
                internal,
                addr_type,
                addr_all,
                account,
                path,
                start,
                end,
            ),
            Err(e) => device is None && (e matches Error::Hwi(m, c) && m@
                == "Device fingerprint not set"@ && c is None),
        },
{
    let mut v = match global_args(device, expert, Some(chain), true) {
        Ok(v) => v,
        Err(e) => {
            return Err(e);
        },
    };
    push_tok(&mut v, "getkeypool".to_owned());
    if keypool {
        push_tok(&mut v, "--keypool".to_owned());
    }
    if internal {
        push_tok(&mut v, "--internal".to_owned());
    }
    push_tok(&mut v, "--addr-type".to_owned());
    push_tok(&mut v, addr_type.flag_name());
    if addr_all {
        push_tok(&mut v, "--addr-all".to_owned());
    }
    push_tok(&mut v, "--account".to_owned());
    push_tok(&mut v, u32_to_dec(account));
    match path {
        Some(p) => {
            push_tok(&mut v, "--path".to_owned());
            push_tok(&mut v, p.to_owned());
        },
        None => {
        },
    }
    push_tok(&mut v, u32_to_dec(start));
    push_tok(&mut v, u32_to_dec(end));
    Ok(v)
}

/// The argument vector of a descriptors call.
pub fn descriptors_args(
    device: Option<&HWIDevice>,
    expert: bool,
    chain: &HWIChain,
    account: u32,
) -> (r: Result<Vec<String>, Error>)
    ensures
        match r {
            Ok(v) => device is Some && spec_views(v@) =~= spec_global_tokens(
                spec_fp_of(device, true),
                expert,
                Some(*chain),
            ) + seq!["getdescriptors"@, "--account"@, spec_dec(account as nat)],
            Err(e) => device is None && (e matches Error::Hwi(m, c) && m@
                == "Device fingerprint not set"@ && c is None),
        },
{
    let mut v = match global_args(device, expert, Some(chain), true) {
        Ok(v) => v,
        Err(e) => {
            return Err(e);
        },
    };
    push_tok(&mut v, "getdescriptors".to_owned());
    push_tok(&mut v, "--account".to_owned());
    push_tok(&mut v, u32_to_dec(account));
    Ok(v)
}

/// The argument vector of a display-by-descriptor call.
pub fn display_desc_args(
    device: Option<&HWIDevice>,
    expert: bool,
    chain: &HWIChain,
    descriptor: &str,
) -> (r: Result<Vec<String>, Error>)
    ensures
        match r {
            Ok(v) => device is Some && spec_views(v@) =~= spec_global_tokens(
                spec_fp_of(device, true),
                expert,
                Some(*chain),
            ) + seq!["displayaddress"@, "--desc"@, descriptor@],
            Err(e) => device is None && (e matches Error::Hwi(m, c) && m@
                == "Device fingerprint not set"@ && c is None),
        },
{
    let mut v = match global_args(device, expert, Some(chain), true) {
        Ok(v) => v,
        Err(e) => {
            return Err(e);
        },
    };
    push_tok(&mut v, "displayaddress".to_owned());
    push_tok(&mut v, "--desc".to_owned());
    push_tok(&mut v, descriptor.to_owned());
    Ok(v)
}

/// The argument vector of a display-by-path call.
pub fn display_path_args(
    device: Option<&HWIDevice>,
    expert: bool,
    chain: &HWIChain,
    path: &str,
    address_type: HWIAddressType,
) -> (r: Result<Vec<String>, Error>)
    ensures
        match r {
            Ok(v) => device is Some && spec_views(v@) =~= spec_global_tokens(
                spec_fp_of(device, true),
                expert,
                Some(*chain),
            ) + seq![
                "displayaddress"@,
                "--path"@,
                path@,
                "--addr-type"@,
                spec_addr_type_flag(address_type),
            ],
            Err(e) => device is None && (e matches Error::Hwi(m, c) && m@
                == "Device fingerprint not set"@ && c is None),
        },
{
    let mut v = match global_args(device, expert, Some(chain), true) {
        Ok(v) => v,
        Err(e) => {
            return Err(e);
        },
    };
    push_tok(&mut v, "displayaddress".to_owned());
    push_tok(&mut v, "--path".to_owned());
    push_tok(&mut v, path.to_owned());
    push_tok(&mut v, "--addr-type".to_owned());
    push_tok(&mut v, address_type.flag_name());
    Ok(v)
}

/// The argument vector of a one-token lifecycle call bound to a
/// device: toggling the passphrase or wiping.
pub fn bare_device_args(
    device: Option<&HWIDevice>,
    expert: bool,
    chain: &HWIChain,
    subcommand: &str,
) -> (r: Result<Vec<String>, Error>)
    ensures
        match r {
            Ok(v) => device is Some && spec_views(v@) =~= spec_global_tokens(
                spec_fp_of(device, true),
                expert,
                Some(*chain),
            ) + seq![subcommand@],
            Err(e) => device is None && (e matches Error::Hwi(m, c) && m@
                == "Device fingerprint not set"@ && c is None),
        },
{
    let mut v = match global_args(device, expert, Some(chain), true) {
        Ok(v) => v,
        Err(e) => {
            return Err(e);
        },
    };
    push_tok(&mut v, subcommand.to_owned());
    Ok(v)
}

/// The argument vector of a pin submission: the pin is one opaque
/// token.
pub fn send_pin_args(device: Option<&HWIDevice>, expert: bool, chain: &HWIChain, pin: &str) -> (r:
    Result<Vec<String>, Error>)
    ensures
        match r {
            Ok(v) => device is Some && spec_views(v@) =~= spec_global_tokens(
                spec_fp_of(device, true),
                expert,
                Some(*chain),
            ) + seq!["sendpin"@, pin@],
            Err(e) => device is None && (e matches Error::Hwi(m, c) && m@
                == "Device fingerprint not set"@ && c is None),
        },
{
    let mut v = match global_args(device, expert, Some(chain), true) {
        Ok(v) => v,
        Err(e) => {
            return Err(e);
        },
    };
    push_tok(&mut v, "sendpin".to_owned());
    push_tok(&mut v, pin.to_owned());
    Ok(v)
}

/// The argument vector of a device set-up call: label and passphrase
/// travel as single opaque tokens.
pub fn setup_args(
    device: Option<&HWIDevice>,
    expert: bool,
    chain: &HWIChain,
    label: &str,
    passphrase: &str,
) -> (r: Result<Vec<String>, Error>)
    ensures
        match r {
            Ok(v) => device is Some && spec_views(v@) =~= spec_global_tokens(
                spec_fp_of(device, true),
                expert,
                Some(*chain),
            ) + seq!["setup"@, "--label"@, label@, "--backup_passphrase"@, passphrase@],
            Err(e) => device is None && (e matches Error::Hwi(m, c) && m@
                == "Device fingerprint not set"@ && c is None),
        },
{
    let mut v = match global_args(device, expert, Some(chain), true) {
        Ok(v) => v,
        Err(e) => {
            return Err(e);
        },
    };
    push_tok(&mut v, "setup".to_owned());
    push_tok(&mut v, "--label".to_owned());
    push_tok(&mut v, label.to_owned());
    push_tok(&mut v, "--backup_passphrase".to_owned());
    push_tok(&mut v, passphrase.to_owned());
    Ok(v)
}

/// The argument vector of a restore call.
pub fn restore_args(
    device: Option<&HWIDevice>,
    expert: bool,
    chain: &HWIChain,
    label: &str,
    word_count: u8,
) -> (r: Result<Vec<String>, Error>)
    ensures
        match r {
            Ok(v) => device is Some && spec_views(v@) =~= spec_global_tokens(
                spec_fp_of(device, true),
                expert,
                Some(*chain),
            ) + seq![
                "restore"@,
                "--word_count"@,
                spec_dec(word_count as nat),
                "--label"@,
                label@,
            ],
            Err(e) => device is None && (e matches Error::Hwi(m, c) && m@
                == "Device fingerprint not set"@ && c is None),
        },
{
    let mut v = match global_args(device, expert, Some(chain), true) {
        Ok(v) => v,
        Err(e) => {
            return Err(e);
        },
    };
    push_tok(&mut v, "restore".to_owned());
    push_tok(&mut v, "--word_count".to_owned());
    push_tok(&mut v, u32_to_dec(word_count as u32));
    push_tok(&mut v, "--label".to_owned());
    push_tok(&mut v, label.to_owned());
    Ok(v)
}

/// The argument vector of a backup call.
pub fn backup_args(
    device: Option<&HWIDevice>,
    expert: bool,
    chain: &HWIChain,
    label: &str,
    backup_passphrase: &str,
) -> (r: Result<Vec<String>, Error>)
    ensures
        match r {
            Ok(v) => device is Some && spec_views(v@) =~= spec_global_tokens(
                spec_fp_of(device, true),
                expert,
                Some(*chain),
            ) + seq!["backup"@, "--label"@, label@, "--backup_passphrase"@, backup_passphrase@],
            Err(e) => device is None && (e matches Error::Hwi(m, c) && m@
                == "Device fingerprint not set"@ && c is None),
        },
{
    let mut v = match global_args(device, expert, Some(chain), true) {
        Ok(v) => v,
        Err(e) => {
            return Err(e);
        },
    };
    push_tok(&mut v, "backup".to_owned());
    push_tok(&mut v, "--label".to_owned());
    push_tok(&mut v, label.to_owned());
    push_tok(&mut v, "--backup_passphrase".to_owned());
    push_tok(&mut v, backup_passphrase.to_owned());
    Ok(v)
}

/// The argument vector of the udev-rules installation call: never
/// bound to a device.
pub fn udev_args(location: &str) -> (v: Vec<String>)
    ensures
        spec_views(v@) =~= seq!["installudevrules"@, "--location"@, location@],
{
    let mut v: Vec<String> = Vec::new();
    push_tok(&mut v, "installudevrules".to_owned());
    push_tok(&mut v, "--location".to_owned());
    push_tok(&mut v, location.to_owned());
    v
}

/// The argument vector of the global version query.
pub fn version_args() -> (v: Vec<String>)
    ensures
        spec_views(v@) =~= seq!["--version"@],
{
    let mut v: Vec<String> = Vec::new();
    push_tok(&mut v, "--version".to_owned());
    v
}

/// Whether a device satisfies the find-device filters: the type when
/// one is asked for, and the lowercase fingerprint hex when one is
/// given.
pub open spec fn spec_device_matches(
    d: HWIDevice,
    device_type: Option<&HWIDeviceType>,
    fingerprint: Option<&str>,
) -> bool {
    &&& (match device_type {
        Some(t) => crate::types::spec_same_type(d.device_type, *t),
        None => true,
    })
    &&& (match fingerprint {
        Some(f) => spec_hex(d.fingerprint@) == f@,
        None => true,
    })
}

/// Whether one enumerated item is a usable match: a well-decoded
/// device that satisfies the filters (per-device error records never
/// match).
pub open spec fn spec_item_matches(
    item: Result<HWIDevice, Error>,
    device_type: Option<&HWIDeviceType>,
    fingerprint: Option<&str>,
) -> bool {
    item matches Ok(d) && spec_device_matches(d, device_type, fingerprint)
}

/// Picks the device a find-device call binds to: the first
/// well-decoded device in enumeration order that satisfies the
/// filters; when none does, the no-matching-device failure.
#[verifier::loop_isolation(false)]
pub fn select_device(
    devices: &Vec<Result<HWIDevice, Error>>,
    device_type: Option<&HWIDeviceType>,
    fingerprint: Option<&str>,
) -> (r: Result<HWIDevice, Error>)
    ensures
        match r {
            Ok(d) => exists|i: int|
                0 <= i < devices@.len() && #[trigger] spec_item_matches(
                    devices@[i],
                    device_type,
                    fingerprint,
                ) && devices@[i] == Ok::<HWIDevice, Error>(d) && (forall|k: int|
                    0 <= k < i ==> !spec_item_matches(devices@[k], device_type, fingerprint)),
            Err(e) => (forall|k: int|
                0 <= k < devices@.len() ==> !spec_item_matches(
                    #[trigger] devices@[k],
                    device_type,
                    fingerprint,
                )) && (e matches Error::Hwi(m, c) && m@ == "No matching device found"@
                && c is None),
        },
{
    let mut i: usize = 0;
    while i < devices.len()
        invariant
            i <= devices@.len(),
            forall|k: int| 0 <= k < i ==> !spec_item_matches(devices@[k], device_type, fingerprint),
        decreases devices@.len() - i,
    {
        match &devices[i] {
            Ok(d) => {
                let type_matches = match device_type {
                    Some(t) => d.device_type.same_type(t),
                    None => true,
                };
                let fp_matches = match fingerprint {
                    Some(f) => {
                        let hex = fingerprint_hex(&d.fingerprint);
                        str_eq(hex.as_str(), f)
                    },
                    None => true,
                };
                if type_matches && fp_matches {
                    proof {
                        assert(spec_item_matches(devices@[i as int], device_type, fingerprint));
                    }
                    return Ok(d.duplicate());
                }
            },
            Err(_) => {
            },
        }
        proof {
            assert(!spec_item_matches(devices@[i as int], device_type, fingerprint));
        }
        i = i + 1;
    }
    Err(Error::hwi_plain("No matching device found"))
}

/// The out-of-process backend: a bound device identity, the expert
/// switch and the chain, generic over the executor that actually runs
/// the external tool.
#[derive(Debug)]
pub struct BinaryHWIImplementation<T: HWIBinaryExecutor> {
    device: Option<HWIDevice>,
    expert: bool,
    chain: HWIChain,
    _phantom: core::marker::PhantomData<T>,
}

impl<T: HWIBinaryExecutor> HWIImplementation for BinaryHWIImplementation<T> {
    fn enumerate() -> Result<String, Error> {
        let args = enumerate_args(false, None, None);
        T::execute_command(args)
    }

    fn get_client(device: &HWIDevice, expert: bool, chain: HWIChain) -> Result<Self, Error> {
        Ok(
            BinaryHWIImplementation {
                device: Some(device.clone()),
                expert,
                chain,
                _phantom: core::marker::PhantomData,
            },
        )
    }

    fn find_device(
        password: Option<&str>,
        device_type: Option<HWIDeviceType>,
        fingerprint: Option<&str>,
        expert: bool,
        chain: HWIChain,
    ) -> Result<Self, Error> {
        let args = enumerate_args(expert, Some(&chain), password);
        let output = match T::execute_command(args) {
            Ok(o) => o,
            Err(e) => {
                return Err(e);
            },
        };
        let parsed = match parse_json(output.as_str()) {
            Ok(j) => j,
            Err(e) => {
                return Err(e);
            },
        };
        let devices = match decode_devices(&parsed) {
            Ok(v) => v,
            Err(e) => {
                return Err(e);
            },
        };
        let picked = match select_device(&devices, device_type.as_ref(), fingerprint) {
            Ok(d) => d,
            Err(e) => {
                return Err(e);
            },
        };
        Ok(
            BinaryHWIImplementation {
                device: Some(picked),
                expert,
                chain,
                _phantom: core::marker::PhantomData,
            },
        )
    }

    fn get_xpub(&self, path: &str, expert: bool) -> Result<String, Error> {
        let args = match get_xpub_args(self.device.as_ref(), expert, &self.chain, path) {
            Ok(v) => v,
            Err(e) => {
                return Err(e);
            },
        };
        T::execute_command(args)
    }

    fn sign_tx(&self, psbt: &str) -> Result<String, Error> {
        let args = match sign_tx_args(self.device.as_ref(), self.expert, &self.chain, psbt) {
            Ok(v) => v,
            Err(e) => {
                return Err(e);
            },
        };
        T::execute_command(args)
    }

    fn get_master_xpub(&self, addrtype: HWIAddressType, account: u32) -> Result<String, Error> {
        let args = match master_xpub_args(
            self.device.as_ref(),
            self.expert,
            &self.chain,
            addrtype,
            account,
        ) {
            Ok(v) => v,
            Err(e) => {
                return Err(e);
            },
        };
        T::execute_command(args)
    }

    fn sign_message(&self, message: &str, path: &str) -> Result<String, Error> {
        let args = match sign_message_args(
            self.device.as_ref(),
            self.expert,
            &self.chain,
            message,
            path,
        ) {
            Ok(v) => v,
            Err(e) => {
                return Err(e);
            },
        };
        T::execute_command(args)
    }

    fn display_address_with_desc(&self, descriptor: &str) -> Result<String, Error> {
        let args = match display_desc_args(
            self.device.as_ref(),
            self.expert,
            &self.chain,
            descriptor,
        ) {
            Ok(v) => v,
            Err(e) => {
                return Err(e);
            },
        };
        T::execute_command(args)
    }

    fn display_address_with_path(&self, path: &str, address_type: HWIAddressType) -> Result<
        String,
        Error,
    > {
        let args = match display_path_args(
            self.device.as_ref(),
            self.expert,
            &self.chain,
            path,
            address_type,
        ) {
            Ok(v) => v,
            Err(e) => {
                return Err(e);
            },
        };
        T::execute_command(args)
    }

    fn toggle_passphrase(&self) -> Result<String, Error> {
        let args = match bare_device_args(
            self.device.as_ref(),
            self.expert,
            &self.chain,
            "togglepassphrase",
        ) {
            Ok(v) => v,
            Err(e) => {
                return Err(e);
            },
        };
        T::execute_command(args)
    }

    fn prompt_pin(&self) -> Result<String, Error> {
        let args = match bare_device_args(
            self.device.as_ref(),
            self.expert,
            &self.chain,
            "promptpin",
        ) {
            Ok(v) => v,
            Err(e) => {
                return Err(e);
            },
        };
        T::execute_command(args)
    }

    fn send_pin(&self, pin: &str) -> Result<String, Error> {
        let args = match send_pin_args(self.device.as_ref(), self.expert, &self.chain, pin) {
            Ok(v) => v,
            Err(e) => {
                return Err(e);
            },
        };
        T::execute_command(args)
    }

    fn setup_device(&self, label: &str, passphrase: &str) -> Result<String, Error> {
        let args = match setup_args(
            self.device.as_ref(),
            self.expert,
            &self.chain,
            label,
            passphrase,
        ) {
            Ok(v) => v,
            Err(e) => {
                return Err(e);
            },
        };
        T::execute_command(args)
    }

    fn restore_device(&self, label: &str, word_count: u8) -> Result<String, Error> {
        let args = match restore_args(
            self.device.as_ref(),
            self.expert,
            &self.chain,
            label,
            word_count,
        ) {
            Ok(v) => v,
            Err(e) => {
                return Err(e);
            },
        };
        T::execute_command(args)
    }

    fn backup_device(&self, label: &str, backup_passphrase: &str) -> Result<String, Error> {
        let args = match backup_args(
            self.device.as_ref(),
            self.expert,
            &self.chain,
            label,
            backup_passphrase,
        ) {
            Ok(v) => v,
            Err(e) => {
                return Err(e);
            },
        };
        T::execute_command(args)
    }

    fn wipe_device(&self) -> Result<String, Error> {
        let args = match bare_device_args(self.device.as_ref(), self.expert, &self.chain, "wipe") {
            Ok(v) => v,
            Err(e) => {
                return Err(e);
            },
        };
        T::execute_command(args)
    }

    fn get_descriptors(&self, account: u32) -> Result<String, Error> {
        let args = match descriptors_args(self.device.as_ref(), self.expert, &self.chain, account) {
            Ok(v) => v,
            Err(e) => {
                return Err(e);
            },
        };
        T::execute_command(args)
    }

    fn get_keypool(
        &self,
        keypool: bool,
        internal: bool,
        addr_type: HWIAddressType,
        addr_all: bool,
        account: u32,
        path: Option<String>,
        start: u32,
        end: u32,
    ) -> Result<String, Error> {
        let path_ref: Option<&str> = match &path {
            Some(p) => Some(p.as_str()),
            None => None,
        };
        let args = match keypool_args(
            self.device.as_ref(),
            self.expert,
            &self.chain,
            keypool,
            internal,
            addr_type,
            addr_all,
            account,
            path_ref,
            start,
            end,
        ) {
            Ok(v) => v,
            Err(e) => {
                return Err(e);
            },
        };
        T::execute_command(args)
    }

    fn get_version() -> Result<String, Error> {
        T::execute_command(version_args())
    }

    fn install_udev_rules(_source: &str, location: &str) -> Result<String, Error> {
        T::execute_command(udev_args(location))
    }

    /// The out-of-process tool keeps no state between invocations, so
    /// there is no logging configuration to set: the capability gap is
    /// reported, never silently ignored.
    fn set_log_level(_level: LogLevel) -> Result<(), Error> {
        Err(Error::NotImplemented)
    }

    /// Installing the interpreter library is meaningful only for the
    /// embedded backend.
    fn install_hwilib(_version: String) -> Result<(), Error> {
        Err(Error::NotImplemented)
    }
}

} // verus!
