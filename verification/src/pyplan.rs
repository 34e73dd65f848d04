//! Call plans for the embedded-interpreter backend.
//!
//! Each operation becomes one call into the interpreter's command
//! module: a function name and an ordered argument tuple. The plans
//! here fix both — the marshaling decisions — as verified data; the
//! thin runtime that owns the interpreter performs the call, holding
//! the interpreter's global lock, and serializes the result back to
//! JSON text for the common decode pipeline.

use vstd::prelude::*;

use crate::types::HWIAddressType;
use crate::types::HWIChain;
use crate::types::HWIDeviceType;

verus! {

/// One argument of an embedded call: plain values, the bound device
/// handle, or an explicit interpreter `None`.
#[derive(Clone, Debug, PartialEq, Eq)]
pub enum PyValue {
    /// The opened device handle the backend is bound to.
    Client,
    Str(String),
    Bool(bool),
    Num(u32),
    Byte(u8),
    NoneVal,
    /// The interpreter-side chain constant, looked up by its
    /// canonical name.
    Chain(HWIChain),
    /// The interpreter-side address-type constant, looked up by its
    /// canonical name.
    AddrType(HWIAddressType),
}

/// One embedded call: the command-module function and its positional
/// arguments, in the exact order the module expects.
#[derive(Clone, Debug, PartialEq, Eq)]
pub struct PyCall {
    pub function: String,
    pub args: Vec<PyValue>,
}

/// The enumeration call: no arguments, no bound device.
pub fn py_enumerate() -> (r: PyCall)
    ensures
        r.function@ == "enumerate"@,
        r.args@.len() == 0,
{
    PyCall { function: "enumerate".to_owned(), args: Vec::new() }
}

/// The open-device call: device type name, path, empty password,
/// expert switch, chain constant — in that order.
pub fn py_get_client(device_type: &HWIDeviceType, path: &str, expert: bool, chain: HWIChain) -> (r:
    PyCall)
    ensures
        r.function@ == "get_client"@,
        r.args@.len() == 5,
        (r.args@[0] matches PyValue::Str(s) && s@ == crate::types::spec_type_name(*device_type)),
        (r.args@[1] matches PyValue::Str(s) && s@ == path@),
        (r.args@[2] matches PyValue::Str(s) && s@ == Seq::<char>::empty()),
        r.args@[3] == PyValue::Bool(expert),
        r.args@[4] == PyValue::Chain(chain),
{
    let mut args: Vec<PyValue> = Vec::new();
    args.push(PyValue::Str(device_type.name()));
    args.push(PyValue::Str(path.to_owned()));
    args.push(PyValue::Str(String::new()));
    args.push(PyValue::Bool(expert));
    args.push(PyValue::Chain(chain));
    PyCall { function: "get_client".to_owned(), args }
}

/// The find-device call: password, device type name, fingerprint,
/// expert switch, chain — absent options travel as empty text.
pub fn py_find_device(
    password: Option<&str>,
    device_type: Option<&HWIDeviceType>,
    fingerprint: Option<&str>,
    expert: bool,
    chain: HWIChain,
) -> (r: PyCall)
    ensures
        r.function@ == "find_device"@,
        r.args@.len() == 5,
        (r.args@[0] matches PyValue::Str(s) && s@ == match password {
            Some(p) => p@,
            None => Seq::<char>::empty(),
        }),
        (r.args@[1] matches PyValue::Str(s) && s@ == match device_type {
            Some(t) => crate::types::spec_type_name(*t),
            None => Seq::<char>::empty(),
        }),
        (r.args@[2] matches PyValue::Str(s) && s@ == match fingerprint {
            Some(f) => f@,
            None => Seq::<char>::empty(),
        }),
        r.args@[3] == PyValue::Bool(expert),
        r.args@[4] == PyValue::Chain(chain),
{
    let mut args: Vec<PyValue> = Vec::new();
    let pw = match password {
        Some(p) => p.to_owned(),
        None => String::new(),
    };
    args.push(PyValue::Str(pw));
    let ty = match device_type {
        Some(t) => t.name(),
        None => String::new(),
    };
    args.push(PyValue::Str(ty));
    let fp = match fingerprint {
        Some(f) => f.to_owned(),
        None => String::new(),
    };
    args.push(PyValue::Str(fp));
    args.push(PyValue::Bool(expert));
    args.push(PyValue::Chain(chain));
    PyCall { function: "find_device".to_owned(), args }
}

/// The master-xpub call: handle, address type, account.
pub fn py_get_master_xpub(addrtype: HWIAddressType, account: u32) -> (r: PyCall)
    ensures
        r.function@ == "getmasterxpub"@,
        r.args@.len() == 3,
        r.args@[0] == PyValue::Client,
        r.args@[1] == PyValue::AddrType(addrtype),
        r.args@[2] == PyValue::Num(account),
{
    let mut args: Vec<PyValue> = Vec::new();
    args.push(PyValue::Client);
    args.push(PyValue::AddrType(addrtype));
    args.push(PyValue::Num(account));
    PyCall { function: "getmasterxpub".to_owned(), args }
}

/// The transaction-signing call: handle, serialized transaction text.
pub fn py_sign_tx(psbt: &str) -> (r: PyCall)
    ensures
        r.function@ == "signtx"@,
        r.args@.len() == 2,
        r.args@[0] == PyValue::Client,
        (r.args@[1] matches PyValue::Str(s) && s@ == psbt@),
{
    let mut args: Vec<PyValue> = Vec::new();
    args.push(PyValue::Client);
    args.push(PyValue::Str(psbt.to_owned()));
    PyCall { function: "signtx".to_owned(), args }
}

/// The xpub-at-path call: handle, path, expert switch.
pub fn py_get_xpub(path: &str, expert: bool) -> (r: PyCall)
    ensures
        r.function@ == "getxpub"@,
        r.args@.len() == 3,
        r.args@[0] == PyValue::Client,
        (r.args@[1] matches PyValue::Str(s) && s@ == path@),
        r.args@[2] == PyValue::Bool(expert),
{
    let mut args: Vec<PyValue> = Vec::new();
    args.push(PyValue::Client);
    args.push(PyValue::Str(path.to_owned()));
    args.push(PyValue::Bool(expert));
    PyCall { function: "getxpub".to_owned(), args }
}

/// The message-signing call: handle, message, path.
pub fn py_sign_message(message: &str, path: &str) -> (r: PyCall)
    ensures
        r.function@ == "signmessage"@,
        r.args@.len() == 3,
        r.args@[0] == PyValue::Client,
        (r.args@[1] matches PyValue::Str(s) && s@ == message@),
        (r.args@[2] matches PyValue::Str(s) && s@ == path@),
{
    let mut args: Vec<PyValue> = Vec::new();
    args.push(PyValue::Client);
    args.push(PyValue::Str(message.to_owned()));
    args.push(PyValue::Str(path.to_owned()));
    PyCall { function: "signmessage".to_owned(), args }
}

/// The key-pool call, in the module's own order: handle, path (or
/// none), start, end, internal, keypool, account, address type,
/// all-address-types switch.
#[allow(clippy::too_many_arguments)]
pub fn py_get_keypool(
    keypool: bool,
    internal: bool,
    addr_type: HWIAddressType,
    addr_all: bool,
    account: u32,
    path: Option<&str>,
    start: u32,
    end: u32,
) -> (r: PyCall)
    ensures
        r.function@ == "getkeypool"@,
        r.args@.len() == 9,
        r.args@[0] == PyValue::Client,
        (match path {
            Some(p) => r.args@[1] matches PyValue::Str(s) && s@ == p@,
            None => r.args@[1] == PyValue::NoneVal,
        }),
        r.args@[2] == PyValue::Num(start),
        r.args@[3] == PyValue::Num(end),
        r.args@[4] == PyValue::Bool(internal),
        r.args@[5] == PyValue::Bool(keypool),
        r.args@[6] == PyValue::Num(account),
        r.args@[7] == PyValue::AddrType(addr_type),
        r.args@[8] == PyValue::Bool(addr_all),
{
    let mut args: Vec<PyValue> = Vec::new();
    args.push(PyValue::Client);
    match path {
        Some(p) => {
            args.push(PyValue::Str(p.to_owned()));
        },
        None => {
            args.push(PyValue::NoneVal);
        },
    }
    args.push(PyValue::Num(start));
    args.push(PyValue::Num(end));
    args.push(PyValue::Bool(internal));
    args.push(PyValue::Bool(keypool));
    args.push(PyValue::Num(account));
    args.push(PyValue::AddrType(addr_type));
    args.push(PyValue::Bool(addr_all));
    PyCall { function: "getkeypool".to_owned(), args }
}

/// The descriptors call: handle, account.
pub fn py_get_descriptors(account: u32) -> (r: PyCall)
    ensures
        r.function@ == "getdescriptors"@,
        r.args@.len() == 2,
        r.args@[0] == PyValue::Client,
        r.args@[1] == PyValue::Num(account),
{
    let mut args: Vec<PyValue> = Vec::new();
    args.push(PyValue::Client);
    args.push(PyValue::Num(account));
    PyCall { function: "getdescriptors".to_owned(), args }
}

/// The display-by-descriptor call: handle, no path, descriptor.
pub fn py_display_address_desc(descriptor: &str) -> (r: PyCall)
    ensures
        r.function@ == "displayaddress"@,
        r.args@.len() == 3,
        r.args@[0] == PyValue::Client,
        r.args@[1] == PyValue::NoneVal,
        (r.args@[2] matches PyValue::Str(s) && s@ == descriptor@),
{
    let mut args: Vec<PyValue> = Vec::new();
    args.push(PyValue::Client);
    args.push(PyValue::NoneVal);
    args.push(PyValue::Str(descriptor.to_owned()));
    PyCall { function: "displayaddress".to_owned(), args }
}

/// The display-by-path call: handle, path, no descriptor, address
/// type.
pub fn py_display_address_path(path: &str, address_type: HWIAddressType) -> (r: PyCall)
    ensures
        r.function@ == "displayaddress"@,
        r.args@.len() == 4,
        r.args@[0] == PyValue::Client,
        (r.args@[1] matches PyValue::Str(s) && s@ == path@),
        r.args@[2] == PyValue::NoneVal,
        r.args@[3] == PyValue::AddrType(address_type),
{
    let mut args: Vec<PyValue> = Vec::new();
    args.push(PyValue::Client);
    args.push(PyValue::Str(path.to_owned()));
    args.push(PyValue::NoneVal);
    args.push(PyValue::AddrType(address_type));
    PyCall { function: "displayaddress".to_owned(), args }
}

/// The udev-rules installation call: source, then destination.
pub fn py_install_udev_rules(source: &str, location: &str) -> (r: PyCall)
    ensures
        r.function@ == "install_udev_rules"@,
        r.args@.len() == 2,
        (r.args@[0] matches PyValue::Str(s) && s@ == source@),
        (r.args@[1] matches PyValue::Str(s) && s@ == location@),
{
    let mut args: Vec<PyValue> = Vec::new();
    args.push(PyValue::Str(source.to_owned()));
    args.push(PyValue::Str(location.to_owned()));
    PyCall { function: "install_udev_rules".to_owned(), args }
}

/// The passphrase-toggle call: handle only.
pub fn py_toggle_passphrase() -> (r: PyCall)
    ensures
        r.function@ == "toggle_passphrase"@,
        r.args@.len() == 1,
        r.args@[0] == PyValue::Client,
{
    let mut args: Vec<PyValue> = Vec::new();
    args.push(PyValue::Client);
    PyCall { function: "toggle_passphrase".to_owned(), args }
}

/// The pin-prompt call: handle only.
pub fn py_prompt_pin() -> (r: PyCall)
    ensures
        r.function@ == "prompt_pin"@,
        r.args@.len() == 1,
        r.args@[0] == PyValue::Client,
{
    let mut args: Vec<PyValue> = Vec::new();
    args.push(PyValue::Client);
    PyCall { function: "prompt_pin".to_owned(), args }
}

/// The pin-submission call: handle, then the pin as one opaque text
/// argument.
pub fn py_send_pin(pin: &str) -> (r: PyCall)
    ensures
        r.function@ == "send_pin"@,
        r.args@.len() == 2,
        r.args@[0] == PyValue::Client,
        (r.args@[1] matches PyValue::Str(s) && s@ == pin@),
{
    let mut args: Vec<PyValue> = Vec::new();
    args.push(PyValue::Client);
    args.push(PyValue::Str(pin.to_owned()));
    PyCall { function: "send_pin".to_owned(), args }
}

/// The set-up call: handle, label, passphrase.
pub fn py_setup_device(label: &str, passphrase: &str) -> (r: PyCall)
    ensures
        r.function@ == "setup_device"@,
        r.args@.len() == 3,
        r.args@[0] == PyValue::Client,
        (r.args@[1] matches PyValue::Str(s) && s@ == label@),
        (r.args@[2] matches PyValue::Str(s) && s@ == passphrase@),
{
    let mut args: Vec<PyValue> = Vec::new();
    args.push(PyValue::Client);
    args.push(PyValue::Str(label.to_owned()));
    args.push(PyValue::Str(passphrase.to_owned()));
    PyCall { function: "setup_device".to_owned(), args }
}

/// The restore call: handle, label, word count.
pub fn py_restore_device(label: &str, word_count: u8) -> (r: PyCall)
    ensures
        r.function@ == "restore_device"@,
        r.args@.len() == 3,
        r.args@[0] == PyValue::Client,
        (r.args@[1] matches PyValue::Str(s) && s@ == label@),
        r.args@[2] == PyValue::Byte(word_count),
{
    let mut args: Vec<PyValue> = Vec::new();
    args.push(PyValue::Client);
    args.push(PyValue::Str(label.to_owned()));
    args.push(PyValue::Byte(word_count));
    PyCall { function: "restore_device".to_owned(), args }
}

/// The backup call: handle, label, backup passphrase.
pub fn py_backup_device(label: &str, backup_passphrase: &str) -> (r: PyCall)
    ensures
        r.function@ == "backup_device"@,
        r.args@.len() == 3,
        r.args@[0] == PyValue::Client,
        (r.args@[1] matches PyValue::Str(s) && s@ == label@),
        (r.args@[2] matches PyValue::Str(s) && s@ == backup_passphrase@),
{
    let mut args: Vec<PyValue> = Vec::new();
    args.push(PyValue::Client);
    args.push(PyValue::Str(label.to_owned()));
    args.push(PyValue::Str(backup_passphrase.to_owned()));
    PyCall { function: "backup_device".to_owned(), args }
}

/// The wipe call: handle only.
pub fn py_wipe_device() -> (r: PyCall)
    ensures
        r.function@ == "wipe_device"@,
        r.args@.len() == 1,
        r.args@[0] == PyValue::Client,
{
    let mut args: Vec<PyValue> = Vec::new();
    args.push(PyValue::Client);
    PyCall { function: "wipe_device".to_owned(), args }
}

} // verus!
