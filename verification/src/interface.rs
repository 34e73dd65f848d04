//! The client facade: one method per logical operation, each of which
//! builds the operation's inputs, executes it through the bound
//! backend, and decodes the response through the verified pipeline.
//!
//! Operations are strictly sequential per client: every method blocks
//! until the backend returns. What a backend sends back is untrusted
//! text; everything promised here holds whatever came back.

use vstd::prelude::*;

use crate::backend::HWIImplementation;
use crate::decode::decode_address_response;
use crate::decode::decode_descriptors;
use crate::decode::decode_devices_response;
use crate::decode::decode_keypool_response;
use crate::decode::decode_psbt_response;
use crate::decode::decode_signature_response;
use crate::decode::decode_status_response;
use crate::decode::decode_xpub_response;
use crate::error::Error;
use crate::strutil::strip_checksum;
use crate::types::HWIAddress;
use crate::types::HWIAddressType;
use crate::types::HWIChain;
use crate::types::HWIDescriptor;
use crate::types::HWIDevice;
use crate::types::HWIDeviceType;
use crate::types::HWIExtendedPubKey;
use crate::types::HWIKeyPoolElement;
use crate::types::HWIPartiallySignedTransaction;
use crate::types::HWISignature;
use crate::types::HWIWordCount;
use crate::types::LogLevel;
use crate::types::ToDescriptor;

verus! {

/// A client bound to one device through a chosen backend.
pub struct HWIClient<T: HWIImplementation> {
    pub implementation: T,
}

/// Prefixes a derivation path with the `m/` master marker, as every
/// path argument of the external tool expects.
fn prefix_path(path: &str) -> (r: String)
    ensures
        r@ == "m/"@ + path@,
{
    let mut p = "m/".to_owned();
    p.append(path);
    p
}

impl<T: HWIImplementation> HWIClient<T> {
    /// Lists all connected devices; tolerant decode, one `Result` per
    /// device, so one failing device does not hide the others.
    pub fn enumerate() -> (r: Result<Vec<Result<HWIDevice, Error>>, Error>) {
        let output = match T::enumerate() {
            Ok(o) => o,
            Err(e) => {
                return Err(e);
            },
        };
        decode_devices_response(output.as_str())
    }

    /// Opens a client for one enumerated device.
    pub fn get_client(device: &HWIDevice, expert: bool, chain: HWIChain) -> (r: Result<
        HWIClient<T>,
        Error,
    >) {
        match T::get_client(device, expert, chain) {
            Ok(implementation) => Ok(HWIClient { implementation }),
            Err(e) => Err(e),
        }
    }

    /// Enumerates and filters: a client for the first device matching
    /// the given type or fingerprint, or the backend's
    /// device-not-found failure.
    pub fn find_device(
        password: Option<&str>,
        device_type: Option<HWIDeviceType>,
        fingerprint: Option<&str>,
        expert: bool,
        chain: HWIChain,
    ) -> (r: Result<HWIClient<T>, Error>) {
        match T::find_device(password, device_type, fingerprint, expert, chain) {
            Ok(implementation) => Ok(HWIClient { implementation }),
            Err(e) => Err(e),
        }
    }

    /// The master extended public key for an address type and
    /// account; strict decode, and every key returned is well-formed.
    pub fn get_master_xpub(&self, addrtype: HWIAddressType, account: u32) -> (r: Result<
        HWIExtendedPubKey,
        Error,
    >)
        ensures
            r matches Ok(x) ==> crate::types::xpub_wf(x),
    {
        let output = match self.implementation.get_master_xpub(addrtype, account) {
            Ok(o) => o,
            Err(e) => {
                return Err(e);
            },
        };
        decode_xpub_response(output.as_str())
    }

    /// Signs a transaction; the result's binary form is validated at
    /// decode time.
    pub fn sign_tx(&self, psbt: &HWIPartiallySignedTransaction) -> (r: Result<
        HWIPartiallySignedTransaction,
        Error,
    >)
        ensures
            r matches Ok(p) ==> crate::types::psbt_wf(p),
    {
        let output = match self.implementation.sign_tx(psbt.psbt.as_str()) {
            Ok(o) => o,
            Err(e) => {
                return Err(e);
            },
        };
        decode_psbt_response(output.as_str())
    }

    /// The extended public key at a derivation path (given without
    /// the `m/` prefix, which this call adds).
    pub fn get_xpub(&self, path: &str, expert: bool) -> (r: Result<HWIExtendedPubKey, Error>)
        ensures
            r matches Ok(x) ==> crate::types::xpub_wf(x),
    {
        let prefixed = prefix_path(path);
        let output = match self.implementation.get_xpub(prefixed.as_str(), expert) {
            Ok(o) => o,
            Err(e) => {
                return Err(e);
            },
        };
        decode_xpub_response(output.as_str())
    }

    /// Signs a message with the key at a derivation path; the
    /// signature's base64 wire text is decoded to raw bytes.
    pub fn sign_message(&self, message: &str, path: &str) -> (r: Result<HWISignature, Error>) {
        let prefixed = prefix_path(path);
        let output = match self.implementation.sign_message(message, prefixed.as_str()) {
            Ok(o) => o,
            Err(e) => {
                return Err(e);
            },
        };
        decode_signature_response(output.as_str())
    }

    /// Keys importable into a watch-only wallet, over the inclusive
    /// range `start..=end` (a single-point range is valid). The
    /// wildcard suffix is appended only when a path is given.
    #[allow(clippy::too_many_arguments)]
    pub fn get_keypool(
        &self,
        keypool: bool,
        internal: bool,
        addr_type: HWIAddressType,
        addr_all: bool,
        account: Option<u32>,
        path: Option<&str>,
        start: u32,
        end: u32,
    ) -> (r: Result<Vec<HWIKeyPoolElement>, Error>)
        requires
            start <= end,
    {
        let path_str: Option<String> = match path {
            Some(p) => {
                let mut s = prefix_path(p);
                s.append("/*");
                Some(s)
            },
            None => None,
        };
        let account_n: u32 = match account {
            Some(a) => a,
            None => 0,
        };
        let output = match self.implementation.get_keypool(
            keypool,
            internal,
            addr_type,
            addr_all,
            account_n,
            path_str,
            start,
            end,
        ) {
            Ok(o) => o,
            Err(e) => {
                return Err(e);
            },
        };
        decode_keypool_response(output.as_str())
    }

    /// The device's receive and internal descriptors, parsed into the
    /// chosen representation; a representation that rejects one
    /// descriptor fails the whole call.
    pub fn get_descriptors<U: ToDescriptor>(&self, account: Option<u32>) -> (r: Result<
        HWIDescriptor<U>,
        Error,
    >) {
        let account_n: u32 = match account {
            Some(a) => a,
            None => 0,
        };
        let output = match self.implementation.get_descriptors(account_n) {
            Ok(o) => o,
            Err(e) => {
                return Err(e);
            },
        };
        match crate::json::parse_json(output.as_str()) {
            Ok(j) => decode_descriptors::<U>(&j),
            Err(e) => Err(e),
        }
    }

    /// Displays an address for a descriptor. Any trailing `#checksum`
    /// is stripped before the descriptor is used as a command
    /// argument: the tool never emits checksums usable as-is.
    pub fn display_address_with_desc<U: ToDescriptor>(&self, descriptor: &U) -> (r: Result<
        HWIAddress,
        Error,
    >)
        ensures
            r matches Ok(a) ==> crate::types::address_wf(a),
    {
        let wire = descriptor.to_wire();
        let stripped = strip_checksum(wire.as_str());
        let output = match self.implementation.display_address_with_desc(stripped.as_str()) {
            Ok(o) => o,
            Err(e) => {
                return Err(e);
            },
        };
        decode_address_response(output.as_str())
    }

    /// Displays the address at a derivation path for an address type.
    pub fn display_address_with_path(&self, path: &str, address_type: HWIAddressType) -> (r:
        Result<HWIAddress, Error>)
        ensures
            r matches Ok(a) ==> crate::types::address_wf(a),
    {
        let prefixed = prefix_path(path);
        let output = match self.implementation.display_address_with_path(
            prefixed.as_str(),
            address_type,
        ) {
            Ok(o) => o,
            Err(e) => {
                return Err(e);
            },
        };
        decode_address_response(output.as_str())
    }

    /// Installs the udev rules: a status call, never bound to a
    /// device; defaults mirror the tool's own.
    pub fn install_udev_rules(source: Option<&str>, location: Option<&str>) -> (r: Result<
        (),
        Error,
    >) {
        let src = match source {
            Some(s) => s,
            None => "./udev",
        };
        let loc = match location {
            Some(l) => l,
            None => "/lib/udev/rules.d/",
        };
        let output = match T::install_udev_rules(src, loc) {
            Ok(o) => o,
            Err(e) => {
                return Err(e);
            },
        };
        match decode_status_response(output.as_str()) {
            Ok(s) => s.into_result(),
            Err(e) => Err(e),
        }
    }

    /// Sets the backend's log level; only the embedded backend can,
    /// the other reports the capability gap.
    pub fn set_log_level(level: LogLevel) -> (r: Result<(), Error>) {
        T::set_log_level(level)
    }

    /// Toggles the BIP 39 passphrase: a status call.
    pub fn toggle_passphrase(&self) -> (r: Result<(), Error>) {
        let output = match self.implementation.toggle_passphrase() {
            Ok(o) => o,
            Err(e) => {
                return Err(e);
            },
        };
        match decode_status_response(output.as_str()) {
            Ok(s) => s.into_result(),
            Err(e) => Err(e),
        }
    }

    /// Asks the device to show its pin prompt: a status call.
    pub fn prompt_pin(&self) -> (r: Result<(), Error>) {
        let output = match self.implementation.prompt_pin() {
            Ok(o) => o,
            Err(e) => {
                return Err(e);
            },
        };
        match decode_status_response(output.as_str()) {
            Ok(s) => s.into_result(),
            Err(e) => Err(e),
        }
    }

    /// Sends the pin the user read off the device: a status call.
    pub fn send_pin(&self, pin: &str) -> (r: Result<(), Error>) {
        let output = match self.implementation.send_pin(pin) {
            Ok(o) => o,
            Err(e) => {
                return Err(e);
            },
        };
        match decode_status_response(output.as_str()) {
            Ok(s) => s.into_result(),
            Err(e) => Err(e),
        }
    }

    /// Sets the device up: a status call; absent label or passphrase
    /// travel as empty text.
    pub fn setup_device(&self, label: Option<&str>, passphrase: Option<&str>) -> (r: Result<
        (),
        Error,
    >) {
        let l = match label {
            Some(s) => s,
            None => "",
        };
        let p = match passphrase {
            Some(s) => s,
            None => "",
        };
        let output = match self.implementation.setup_device(l, p) {
            Ok(o) => o,
            Err(e) => {
                return Err(e);
            },
        };
        match decode_status_response(output.as_str()) {
            Ok(s) => s.into_result(),
            Err(e) => Err(e),
        }
    }

    /// Restores the device from a recovery phrase: a status call; an
    /// absent word count defaults to twenty-four.
    pub fn restore_device(&self, label: Option<&str>, word_count: Option<HWIWordCount>) -> (r:
        Result<(), Error>) {
        let l = match label {
            Some(s) => s,
            None => "",
        };
        let words: u8 = match word_count {
            Some(w) => w.as_u8(),
            None => 24,
        };
        let output = match self.implementation.restore_device(l, words) {
            Ok(o) => o,
            Err(e) => {
                return Err(e);
            },
        };
        match decode_status_response(output.as_str()) {
            Ok(s) => s.into_result(),
            Err(e) => Err(e),
        }
    }

    /// Backs the device up: a status call.
    pub fn backup_device(&self, label: Option<&str>, backup_passphrase: Option<&str>) -> (r:
        Result<(), Error>) {
        let l = match label {
            Some(s) => s,
            None => "",
        };
        let p = match backup_passphrase {
            Some(s) => s,
            None => "",
        };
        let output = match self.implementation.backup_device(l, p) {
            Ok(o) => o,
            Err(e) => {
                return Err(e);
            },
        };
        match decode_status_response(output.as_str()) {
            Ok(s) => s.into_result(),
            Err(e) => Err(e),
        }
    }

    /// Wipes the device: a status call.
    pub fn wipe_device(&self) -> (r: Result<(), Error>) {
        let output = match self.implementation.wipe_device() {
            Ok(o) => o,
            Err(e) => {
                return Err(e);
            },
        };
        match decode_status_response(output.as_str()) {
            Ok(s) => s.into_result(),
            Err(e) => Err(e),
        }
    }

    /// The backend's installed tool version.
    pub fn get_version() -> (r: Result<String, Error>) {
        T::get_version()
    }

    /// Installs the interpreter library at a pinned version, or the
    /// default when none is given; only the embedded backend can.
    pub fn install_hwilib(version: Option<&str>) -> (r: Result<(), Error>) {
        let spec_text = match version {
            Some(ver) => {
                let mut s = "hwi==".to_owned();
                s.append(ver);
                s
            },
            None => "hwi".to_owned(),
        };
        T::install_hwilib(spec_text)
    }
}

} // verus!
