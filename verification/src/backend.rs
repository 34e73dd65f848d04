//! The execution-backend contracts.
//!
//! One capability, two conforming implementations: an out-of-process
//! executor that a user supplies through [`HWIBinaryExecutor`], and an
//! in-process embedded-interpreter backend built around the call plans
//! of [`crate::pyplan`]. Both return the raw textual response of one
//! invocation; decoding is a separate stage.

use vstd::prelude::*;

use crate::error::Error;
use crate::types::HWIAddressType;
use crate::types::HWIChain;
use crate::types::HWIDevice;
use crate::types::HWIDeviceType;
use crate::types::LogLevel;

verus! {

/// Runs the external tool out of process. Users implement this: the
/// crate states nothing about what an executor returns, and verified
/// callers treat every response as untrusted text.
pub trait HWIBinaryExecutor {
    /// Executes one invocation with the given argument tokens and
    /// returns the raw textual response.
    fn execute_command(args: Vec<String>) -> Result<String, Error>;
}

/// One logical operation per method; each returns the raw response
/// text of the call, to be decoded by the response pipeline. The two
/// backends produce the same JSON shapes for the same operation.
pub trait HWIImplementation: Sized {
    fn enumerate() -> Result<String, Error>;

    fn get_client(device: &HWIDevice, expert: bool, chain: HWIChain) -> Result<Self, Error>;

    fn find_device(
        password: Option<&str>,
        device_type: Option<HWIDeviceType>,
        fingerprint: Option<&str>,
        expert: bool,
        chain: HWIChain,
    ) -> Result<Self, Error>;

    fn get_xpub(&self, path: &str, expert: bool) -> Result<String, Error>;

    fn sign_tx(&self, psbt: &str) -> Result<String, Error>;

    fn get_master_xpub(&self, addrtype: HWIAddressType, account: u32) -> Result<String, Error>;

    fn sign_message(&self, message: &str, path: &str) -> Result<String, Error>;

    fn display_address_with_desc(&self, descriptor: &str) -> Result<String, Error>;

    fn display_address_with_path(&self, path: &str, address_type: HWIAddressType) -> Result<
        String,
        Error,
    >;

    fn toggle_passphrase(&self) -> Result<String, Error>;

    fn prompt_pin(&self) -> Result<String, Error>;

    fn send_pin(&self, pin: &str) -> Result<String, Error>;

    fn setup_device(&self, label: &str, passphrase: &str) -> Result<String, Error>;

    fn restore_device(&self, label: &str, word_count: u8) -> Result<String, Error>;

    fn backup_device(&self, label: &str, backup_passphrase: &str) -> Result<String, Error>;

    fn wipe_device(&self) -> Result<String, Error>;

    fn get_descriptors(&self, account: u32) -> Result<String, Error>;

    fn get_keypool(
        &self,
        keypool: bool,
        internal: bool,
        addr_type: HWIAddressType,
        addr_all: bool,
        account: u32,
        path: Option<String>,
        start: u32,
        end: u32,
    ) -> Result<String, Error>;

    fn get_version() -> Result<String, Error>;

    fn install_udev_rules(source: &str, location: &str) -> Result<String, Error>;

    fn set_log_level(level: LogLevel) -> Result<(), Error>;

    fn install_hwilib(version: String) -> Result<(), Error>;
}

} // verus!
