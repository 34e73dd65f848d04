//! Domain types: devices, keys, signatures, descriptors, addresses,
//! transactions, key-pool entries, address types and chain selector,
//! each with its wire representation and decode rule.

use vstd::prelude::*;

use crate::error::Error;
use crate::strutil::spec_hex_val;
use crate::strutil::str_eq;

verus! {

/// Whether text is a well-formed extended public key: a function of
/// the text alone.
pub uninterp spec fn spec_valid_xpub(s: Seq<char>) -> bool;

/// Relies on bitcoin::bip32::Xpub::from_str: parsing is deterministic,
/// so well-formedness depends on the text alone.
#[verifier::external_body]
pub fn check_xpub(s: &str) -> (r: bool)
    ensures
        r == spec_valid_xpub(s@),
{
    <bitcoin::bip32::Xpub as core::str::FromStr>::from_str(s).is_ok()
}

/// Whether text is a well-formed Bitcoin address (network unchecked):
/// a function of the text alone.
pub uninterp spec fn spec_valid_address(s: Seq<char>) -> bool;

/// Relies on bitcoin::Address::from_str (the network-unchecked form):
/// parsing is deterministic, so well-formedness depends on the text
/// alone.
#[verifier::external_body]
pub fn check_address(s: &str) -> (r: bool)
    ensures
        r == spec_valid_address(s@),
{
    <bitcoin::Address<bitcoin::address::NetworkUnchecked> as core::str::FromStr>::from_str(
        s,
    ).is_ok()
}

/// Whether bytes deserialize as a partially signed transaction: a
/// function of the bytes alone.
pub uninterp spec fn spec_valid_psbt_bytes(b: Seq<u8>) -> bool;

/// Relies on bitcoin::Psbt::deserialize: parsing is deterministic, so
/// well-formedness depends on the bytes alone.
#[verifier::external_body]
pub fn check_psbt_bytes(b: &[u8]) -> (r: bool)
    ensures
        r == spec_valid_psbt_bytes(b@),
{
    bitcoin::Psbt::deserialize(b).is_ok()
}

/// An extended public key, carried in its base58 wire text; the text
/// is validated at decode time.
#[derive(Clone, Debug, PartialEq, Eq)]
pub struct HWIExtendedPubKey {
    pub xpub: String,
}

pub open spec fn xpub_wf(x: HWIExtendedPubKey) -> bool {
    spec_valid_xpub(x.xpub@)
}

impl HWIExtendedPubKey {
    /// Accepts well-formed extended public key text and nothing else.
    pub fn new(xpub: String) -> (r: Result<HWIExtendedPubKey, Error>)
        ensures
            spec_valid_xpub(xpub@) ==> (r matches Ok(x) && x.xpub@ == xpub@),
            !spec_valid_xpub(xpub@) ==> (r matches Err(e) && e matches Error::Hwi(_, _)),
    {
        if check_xpub(xpub.as_str()) {
            Ok(HWIExtendedPubKey { xpub })
        } else {
            Err(Error::hwi_plain("not an extended public key"))
        }
    }
}

/// A message signature: raw bytes, decoded from base64 wire text at
/// deserialization time.
#[derive(Clone, Debug, PartialEq, Eq)]
pub struct HWISignature {
    pub signature: Vec<u8>,
}

/// An address, carried in its wire text (network unchecked); the text
/// is validated at decode time.
#[derive(Clone, Debug, PartialEq, Eq)]
pub struct HWIAddress {
    pub address: String,
}

pub open spec fn address_wf(a: HWIAddress) -> bool {
    spec_valid_address(a.address@)
}

impl HWIAddress {
    /// Accepts well-formed address text and nothing else.
    pub fn new(address: String) -> (r: Result<HWIAddress, Error>)
        ensures
            spec_valid_address(address@) ==> (r matches Ok(a) && a.address@ == address@),
            !spec_valid_address(address@) ==> (r matches Err(e) && e matches Error::Hwi(_, _)),
    {
        if check_address(address.as_str()) {
            Ok(HWIAddress { address })
        } else {
            Err(Error::hwi_plain("not an address"))
        }
    }
}

/// A partially signed transaction, carried in its base64 wire text;
/// decoded and structurally validated at deserialization time.
#[derive(Clone, Debug, PartialEq, Eq)]
pub struct HWIPartiallySignedTransaction {
    pub psbt: String,
}

pub open spec fn psbt_wf(p: HWIPartiallySignedTransaction) -> bool {
    crate::b64::spec_b64_decode(p.psbt@) matches Some(b) && spec_valid_psbt_bytes(b)
}

impl HWIPartiallySignedTransaction {
    /// Accepts base64 text of a well-formed partially signed
    /// transaction and nothing else.
    pub fn new(psbt: String) -> (r: Result<HWIPartiallySignedTransaction, Error>)
        ensures
            match r {
                Ok(p) => p.psbt@ == psbt@ && psbt_wf(p),
                Err(e) => !(crate::b64::spec_b64_decode(psbt@) matches Some(b)
                    && spec_valid_psbt_bytes(b)) && e matches Error::Hwi(_, _),
            },
    {
        match crate::b64::b64_decode(psbt.as_str()) {
            Some(bytes) => {
                if check_psbt_bytes(bytes.as_slice()) {
                    Ok(HWIPartiallySignedTransaction { psbt })
                } else {
                    Err(Error::hwi_plain("not a partially signed transaction"))
                }
            },
            None => Err(Error::hwi_plain("not base64")),
        }
    }
}

/// A descriptor representation: plain wire text, or a structured type
/// a user of the crate supplies.
pub trait ToDescriptor: Sized {
    /// Parses the wire text of one descriptor.
    fn from_wire(s: &str) -> Result<Self, Error>;

    /// The descriptor as command-argument text.
    fn to_wire(&self) -> String;
}

impl ToDescriptor for String {
    fn from_wire(s: &str) -> Result<Self, Error> {
        Ok(s.to_owned())
    }

    fn to_wire(&self) -> String {
        self.clone()
    }
}

/// The two descriptor branches a device reports: receive and internal
/// (change).
#[derive(Clone, Debug, PartialEq, Eq)]
pub struct HWIDescriptor<T> where T: ToDescriptor {
    pub internal: Vec<T>,
    pub receive: Vec<T>,
}

/// One key-pool entry: descriptor text, inclusive range, timestamp,
/// and three independent flags.
#[derive(Clone, Debug, PartialEq, Eq)]
pub struct HWIKeyPoolElement {
    pub desc: String,
    pub range: Vec<u32>,
    pub timestamp: String,
    pub internal: bool,
    pub keypool: bool,
    pub watchonly: bool,
}

/// The address kinds the tool derives and displays.
#[allow(non_camel_case_types)]
#[derive(Clone, Copy, Debug, PartialEq, Eq, Structural)]
pub enum HWIAddressType {
    Legacy,
    Sh_Wit,
    Wit,
    Tap,
}

/// The tool's canonical (uppercase) name of an address type.
pub open spec fn spec_addr_type_name(t: HWIAddressType) -> Seq<char> {
    match t {
        HWIAddressType::Legacy => "LEGACY"@,
        HWIAddressType::Sh_Wit => "SH_WIT"@,
        HWIAddressType::Wit => "WIT"@,
        HWIAddressType::Tap => "TAP"@,
    }
}

/// The lowercase flag value of an address type.
pub open spec fn spec_addr_type_flag(t: HWIAddressType) -> Seq<char> {
    match t {
        HWIAddressType::Legacy => "legacy"@,
        HWIAddressType::Sh_Wit => "sh_wit"@,
        HWIAddressType::Wit => "wit"@,
        HWIAddressType::Tap => "tap"@,
    }
}

impl HWIAddressType {
    /// The canonical (uppercase) name the tool expects.
    pub fn name(&self) -> (r: String)
        ensures
            r@ == spec_addr_type_name(*self),
    {
        match self {
            HWIAddressType::Legacy => "LEGACY".to_owned(),
            HWIAddressType::Sh_Wit => "SH_WIT".to_owned(),
            HWIAddressType::Wit => "WIT".to_owned(),
            HWIAddressType::Tap => "TAP".to_owned(),
        }
    }

    /// The lowercase flag value.
    pub fn flag_name(&self) -> (r: String)
        ensures
            r@ == spec_addr_type_flag(*self),
    {
        match self {
            HWIAddressType::Legacy => "legacy".to_owned(),
            HWIAddressType::Sh_Wit => "sh_wit".to_owned(),
            HWIAddressType::Wit => "wit".to_owned(),
            HWIAddressType::Tap => "tap".to_owned(),
        }
    }
}

/// The network a per-device call is scoped to.
#[derive(Clone, Copy, Debug, PartialEq, Eq, Structural)]
pub enum HWIChain {
    Main,
    Test,
    Regtest,
    Signet,
}

/// The tool's canonical (uppercase) name of a chain.
pub open spec fn spec_chain_name(c: HWIChain) -> Seq<char> {
    match c {
        HWIChain::Main => "MAIN"@,
        HWIChain::Test => "TEST"@,
        HWIChain::Regtest => "REGTEST"@,
        HWIChain::Signet => "SIGNET"@,
    }
}

/// The lowercase flag value of a chain.
pub open spec fn spec_chain_flag(c: HWIChain) -> Seq<char> {
    match c {
        HWIChain::Main => "main"@,
        HWIChain::Test => "test"@,
        HWIChain::Regtest => "regtest"@,
        HWIChain::Signet => "signet"@,
    }
}

impl HWIChain {
    /// The canonical (uppercase) name the tool expects.
    pub fn name(&self) -> (r: String)
        ensures
            r@ == spec_chain_name(*self),
    {
        match self {
            HWIChain::Main => "MAIN".to_owned(),
            HWIChain::Test => "TEST".to_owned(),
            HWIChain::Regtest => "REGTEST".to_owned(),
            HWIChain::Signet => "SIGNET".to_owned(),
        }
    }

    /// The lowercase flag value.
    pub fn flag_name(&self) -> (r: String)
        ensures
            r@ == spec_chain_flag(*self),
    {
        match self {
            HWIChain::Main => "main".to_owned(),
            HWIChain::Test => "test".to_owned(),
            HWIChain::Regtest => "regtest".to_owned(),
            HWIChain::Signet => "signet".to_owned(),
        }
    }
}

/// The symbolic device kinds, with an open variant for anything the
/// tool names that this crate does not know.
#[derive(Clone, Debug, PartialEq, Eq)]
pub enum HWIDeviceType {
    Ledger,
    Trezor,
    BitBox01,
    BitBox02,
    KeepKey,
    Coldcard,
    Jade,
    Other(String),
}

/// Whether a name is one of the seven known device-type names.
pub open spec fn spec_known_type_name(s: Seq<char>) -> bool {
    s == "ledger"@ || s == "trezor"@ || s == "digitalbitbox"@ || s == "bitbox02"@ || s
        == "keepkey"@ || s == "coldcard"@ || s == "jade"@
}

/// Ties a wire name to the device type it denotes.
pub open spec fn spec_type_of_name(s: Seq<char>, t: HWIDeviceType) -> bool {
    match t {
        HWIDeviceType::Ledger => s == "ledger"@,
        HWIDeviceType::Trezor => s == "trezor"@,
        HWIDeviceType::BitBox01 => s == "digitalbitbox"@,
        HWIDeviceType::BitBox02 => s == "bitbox02"@,
        HWIDeviceType::KeepKey => s == "keepkey"@,
        HWIDeviceType::Coldcard => s == "coldcard"@,
        HWIDeviceType::Jade => s == "jade"@,
        HWIDeviceType::Other(n) => n@ == s && !spec_known_type_name(s),
    }
}

/// The wire name of a device type.
pub open spec fn spec_type_name(t: HWIDeviceType) -> Seq<char> {
    match t {
        HWIDeviceType::Ledger => "ledger"@,
        HWIDeviceType::Trezor => "trezor"@,
        HWIDeviceType::BitBox01 => "digitalbitbox"@,
        HWIDeviceType::BitBox02 => "bitbox02"@,
        HWIDeviceType::KeepKey => "keepkey"@,
        HWIDeviceType::Coldcard => "coldcard"@,
        HWIDeviceType::Jade => "jade"@,
        HWIDeviceType::Other(n) => n@,
    }
}

/// Structural equality of device types.
pub open spec fn spec_same_type(a: HWIDeviceType, b: HWIDeviceType) -> bool {
    match (a, b) {
        (HWIDeviceType::Ledger, HWIDeviceType::Ledger) => true,
        (HWIDeviceType::Trezor, HWIDeviceType::Trezor) => true,
        (HWIDeviceType::BitBox01, HWIDeviceType::BitBox01) => true,
        (HWIDeviceType::BitBox02, HWIDeviceType::BitBox02) => true,
        (HWIDeviceType::KeepKey, HWIDeviceType::KeepKey) => true,
        (HWIDeviceType::Coldcard, HWIDeviceType::Coldcard) => true,
        (HWIDeviceType::Jade, HWIDeviceType::Jade) => true,
        (HWIDeviceType::Other(x), HWIDeviceType::Other(y)) => x@ == y@,
        _ => false,
    }
}

impl HWIDeviceType {
    /// Reads a device type from its wire name; unknown names become
    /// the open variant.
    pub fn from_name(s: &str) -> (t: HWIDeviceType)
        ensures
            spec_type_of_name(s@, t),
    {
        if str_eq(s, "ledger") {
            HWIDeviceType::Ledger
        } else if str_eq(s, "trezor") {
            HWIDeviceType::Trezor
        } else if str_eq(s, "digitalbitbox") {
            HWIDeviceType::BitBox01
        } else if str_eq(s, "bitbox02") {
            HWIDeviceType::BitBox02
        } else if str_eq(s, "keepkey") {
            HWIDeviceType::KeepKey
        } else if str_eq(s, "coldcard") {
            HWIDeviceType::Coldcard
        } else if str_eq(s, "jade") {
            HWIDeviceType::Jade
        } else {
            HWIDeviceType::Other(s.to_owned())
        }
    }

    /// The wire name of the device type.
    pub fn name(&self) -> (r: String)
        ensures
            r@ == spec_type_name(*self),
    {
        match self {
            HWIDeviceType::Ledger => "ledger".to_owned(),
            HWIDeviceType::Trezor => "trezor".to_owned(),
            HWIDeviceType::BitBox01 => "digitalbitbox".to_owned(),
            HWIDeviceType::BitBox02 => "bitbox02".to_owned(),
            HWIDeviceType::KeepKey => "keepkey".to_owned(),
            HWIDeviceType::Coldcard => "coldcard".to_owned(),
            HWIDeviceType::Jade => "jade".to_owned(),
            HWIDeviceType::Other(n) => n.clone(),
        }
    }

    /// Structural equality, usable from verified code.
    pub fn same_type(&self, other: &HWIDeviceType) -> (r: bool)
        ensures
            r == spec_same_type(*self, *other),
    {
        match (self, other) {
            (HWIDeviceType::Ledger, HWIDeviceType::Ledger) => true,
            (HWIDeviceType::Trezor, HWIDeviceType::Trezor) => true,
            (HWIDeviceType::BitBox01, HWIDeviceType::BitBox01) => true,
            (HWIDeviceType::BitBox02, HWIDeviceType::BitBox02) => true,
            (HWIDeviceType::KeepKey, HWIDeviceType::KeepKey) => true,
            (HWIDeviceType::Coldcard, HWIDeviceType::Coldcard) => true,
            (HWIDeviceType::Jade, HWIDeviceType::Jade) => true,
            (HWIDeviceType::Other(x), HWIDeviceType::Other(y)) => str_eq(x.as_str(), y.as_str()),
            _ => false,
        }
    }
}

impl HWIDeviceType {
    /// An equal copy, usable from verified code: the derived clone
    /// carries no specification.
    pub fn duplicate(&self) -> (r: HWIDeviceType)
        ensures
            r == *self,
    {
        match self {
            HWIDeviceType::Ledger => HWIDeviceType::Ledger,
            HWIDeviceType::Trezor => HWIDeviceType::Trezor,
            HWIDeviceType::BitBox01 => HWIDeviceType::BitBox01,
            HWIDeviceType::BitBox02 => HWIDeviceType::BitBox02,
            HWIDeviceType::KeepKey => HWIDeviceType::KeepKey,
            HWIDeviceType::Coldcard => HWIDeviceType::Coldcard,
            HWIDeviceType::Jade => HWIDeviceType::Jade,
            HWIDeviceType::Other(n) => HWIDeviceType::Other(n.clone()),
        }
    }
}

/// Reads two hex digits as one byte.
pub open spec fn spec_hex_byte(c0: char, c1: char) -> Option<u8> {
    match (spec_hex_val(c0), spec_hex_val(c1)) {
        (Some(h), Some(l)) => Some((h * 16 + l) as u8),
        _ => None,
    }
}

/// Reads a fingerprint: exactly eight hex digits, four bytes.
pub open spec fn spec_parse_fp(s: Seq<char>) -> Option<Seq<u8>> {
    if s.len() != 8 {
        None
    } else {
        match (spec_hex_byte(s[0], s[1]), spec_hex_byte(s[2], s[3]), spec_hex_byte(s[4], s[5]),
        spec_hex_byte(s[6], s[7])) {
            (Some(b0), Some(b1), Some(b2), Some(b3)) => Some(seq![b0, b1, b2, b3]),
            _ => None,
        }
    }
}

/// Parses a fingerprint from its eight-digit hex wire text.
pub fn parse_fingerprint(s: &str) -> (r: Option<[u8; 4]>)
    ensures
        match r {
            Some(fp) => spec_parse_fp(s@) == Some(fp@),
            None => spec_parse_fp(s@) is None,
        },
{
    let len = s.unicode_len();
    if len != 8 {
        return None;
    }
    let mut out: [u8; 4] = [0, 0, 0, 0];
    let mut i: usize = 0;
    while i < 4
        invariant
            i <= 4,
            s@.len() == 8,
            forall|k: int|
                0 <= k < i ==> spec_hex_byte(s@[2 * k], s@[2 * k + 1]) == Some(out@[k]),
        decreases 4 - i,
    {
        let h = crate::strutil::hex_val(s.get_char(2 * i));
        let l = crate::strutil::hex_val(s.get_char(2 * i + 1));
        match (h, l) {
            (Some(h), Some(l)) => {
                out[i] = h * 16 + l;
            },
            _ => {
                return None;
            },
        }
        i = i + 1;
    }
    proof {
        assert(spec_parse_fp(s@) == Some(out@)) by {
            assert(spec_hex_byte(s@[0], s@[1]) == Some(out@[0]));
            assert(spec_hex_byte(s@[2], s@[3]) == Some(out@[1]));
            assert(spec_hex_byte(s@[4], s@[5]) == Some(out@[2]));
            assert(spec_hex_byte(s@[6], s@[7]) == Some(out@[3]));
            assert(seq![out@[0], out@[1], out@[2], out@[3]] =~= out@);
        }
    }
    Some(out)
}

/// Reading back one rendered hex digit gives its value.
proof fn lemma_hex_digit_val(d: u8)
    requires
        d < 16,
    ensures
        spec_hex_val(crate::strutil::spec_hex_digit(d)) == Some(d),
{
    if d < 10 {
        assert(crate::strutil::spec_hex_digit(d) as u32 == 48 + d);
    } else {
        assert(crate::strutil::spec_hex_digit(d) as u32 == 87 + d);
    }
}

/// A fingerprint survives its wire encoding: rendering four bytes as
/// lowercase hex and parsing them back is the identity, so a device
/// keeps its identity across sessions.
pub proof fn lemma_fingerprint_hex_round_trip(b: Seq<u8>)
    requires
        b.len() == 4,
    ensures
        spec_parse_fp(crate::strutil::spec_hex(b)) == Some(b),
{
    let h = |d: u8| crate::strutil::spec_hex_digit(d);
    let t1 = b.drop_first();
    let t2 = t1.drop_first();
    let t3 = t2.drop_first();
    let t4 = t3.drop_first();
    assert(t4.len() == 0);
    assert(crate::strutil::spec_hex(t4) =~= Seq::<char>::empty());
    let s = crate::strutil::spec_hex(b);
    assert(s =~= seq![
        h(b[0] / 16),
        h(b[0] % 16),
        h(b[1] / 16),
        h(b[1] % 16),
        h(b[2] / 16),
        h(b[2] % 16),
        h(b[3] / 16),
        h(b[3] % 16),
    ]) by {
        assert(t1[0] == b[1] && t1[1] == b[2] && t1[2] == b[3]);
        assert(t2[0] == b[2] && t2[1] == b[3]);
        assert(t3[0] == b[3]);
        assert(crate::strutil::spec_hex(b) =~= seq![h(b[0] / 16), h(b[0] % 16)]
            + crate::strutil::spec_hex(t1));
        assert(crate::strutil::spec_hex(t1) =~= seq![h(b[1] / 16), h(b[1] % 16)]
            + crate::strutil::spec_hex(t2));
        assert(crate::strutil::spec_hex(t2) =~= seq![h(b[2] / 16), h(b[2] % 16)]
            + crate::strutil::spec_hex(t3));
        assert(crate::strutil::spec_hex(t3) =~= seq![h(b[3] / 16), h(b[3] % 16)]
            + crate::strutil::spec_hex(t4));
    }
    assert forall|k: int| 0 <= k < 4 implies spec_hex_byte(s[2 * k], s[2 * k + 1]) == Some(
        b[k],
    ) by {
        lemma_hex_digit_val(b[k] / 16);
        lemma_hex_digit_val(b[k] % 16);
        assert((b[k] / 16) * 16 + (b[k] % 16) == b[k]);
    }
    assert(seq![b[0], b[1], b[2], b[3]] =~= b);
}

/// Renders a fingerprint as its eight-digit lowercase hex wire text.
pub fn fingerprint_hex(fp: &[u8; 4]) -> (r: String)
    ensures
        r@ == crate::strutil::spec_hex(fp@),
{
    crate::strutil::bytes_to_hex(fp.as_slice())
}

/// The identity of a connected signer, as enumeration reports it.
#[derive(Clone, Debug, PartialEq, Eq)]
pub struct HWIDevice {
    pub device_type: HWIDeviceType,
    pub model: String,
    pub path: String,
    pub needs_pin_sent: bool,
    pub needs_passphrase_sent: bool,
    pub fingerprint: [u8; 4],
}

impl HWIDevice {
    /// An equal copy, usable from verified code: the derived clone
    /// carries no specification.
    pub fn duplicate(&self) -> (r: HWIDevice)
        ensures
            r == *self,
    {
        HWIDevice {
            device_type: self.device_type.duplicate(),
            model: self.model.clone(),
            path: self.path.clone(),
            needs_pin_sent: self.needs_pin_sent,
            needs_passphrase_sent: self.needs_passphrase_sent,
            fingerprint: self.fingerprint,
        }
    }
}

/// The tolerant wire form of a device record: every field optional,
/// plus the per-device error the tool may report inline.
#[derive(Clone, Debug, PartialEq, Eq)]
pub struct HWIDeviceInternal {
    pub device_type: Option<String>,
    pub model: Option<String>,
    pub path: Option<String>,
    pub needs_pin_sent: Option<bool>,
    pub needs_passphrase_sent: Option<bool>,
    pub fingerprint: Option<[u8; 4]>,
    pub error: Option<String>,
    pub code: Option<i8>,
}

/// What converting a tolerant device record yields: an inline error
/// string wins, with its code mapped through the error-code table when
/// recognized; otherwise every field must be present, and absence is a
/// decode failure.
pub open spec fn spec_from_internal_rel(d: HWIDeviceInternal, r: Result<HWIDevice, Error>) -> bool {
    match d.error {
        Some(e) => r matches Err(err) && err matches Error::Hwi(m, c) && m@ == e@ && c == (
        match d.code {
            Some(i) => crate::error::spec_code_from_i8(i),
            None => None,
        }),
        None => {
            if d.device_type is Some && d.model is Some && d.path is Some && d.needs_pin_sent
                is Some && d.needs_passphrase_sent is Some && d.fingerprint is Some {
                r matches Ok(dev) && spec_type_of_name(d.device_type.unwrap()@, dev.device_type)
                    && dev.model@ == d.model.unwrap()@ && dev.path@ == d.path.unwrap()@
                    && dev.needs_pin_sent == d.needs_pin_sent.unwrap()
                    && dev.needs_passphrase_sent == d.needs_passphrase_sent.unwrap()
                    && dev.fingerprint@ == d.fingerprint.unwrap()@
            } else {
                r matches Err(err) && err matches Error::Hwi(_, _)
            }
        },
    }
}

/// Converts a tolerant device record into a device or the per-device
/// error (see [`spec_from_internal_rel`]).
pub fn device_from_internal(d: HWIDeviceInternal) -> (r: Result<HWIDevice, Error>)
    ensures
        spec_from_internal_rel(d, r),
{
    match d.error {
        Some(e) => {
            let code = match d.code {
                Some(i) => match crate::error::ErrorCode::try_from_i8(i) {
                    Ok(c) => Some(c),
                    Err(_) => None,
                },
                None => None,
            };
            Err(Error::Hwi(e, code))
        },
        None => {
            match (d.device_type, d.model, d.path, d.needs_pin_sent, d.needs_passphrase_sent,
            d.fingerprint) {
                (Some(t), Some(m), Some(p), Some(pin), Some(pass), Some(fp)) => Ok(
                    HWIDevice {
                        device_type: HWIDeviceType::from_name(t.as_str()),
                        model: m,
                        path: p,
                        needs_pin_sent: pin,
                        needs_passphrase_sent: pass,
                        fingerprint: fp,
                    },
                ),
                _ => Err(Error::hwi_plain("device record is missing a field")),
            }
        },
    }
}

/// The boolean status wire object most lifecycle calls return.
#[derive(Clone, Copy, Debug, PartialEq, Eq, Structural)]
pub struct HWIStatus {
    pub success: bool,
}

impl HWIStatus {
    /// A true status is success; a false one is the generic
    /// tool-failure error.
    pub fn into_result(self) -> (r: Result<(), Error>)
        ensures
            self.success ==> r is Ok,
            !self.success ==> (r matches Err(e) && e matches Error::Hwi(m, c) && m@
                == "request returned with failure"@ && c is None),
    {
        if self.success {
            Ok(())
        } else {
            Err(Error::hwi_plain("request returned with failure"))
        }
    }
}

/// Log levels for the embedded backend's interpreter-side logging.
#[allow(non_camel_case_types)]
#[derive(Clone, Copy, Debug, PartialEq, Eq, Structural)]
pub enum LogLevel {
    DEBUG,
    INFO,
    WARNING,
    ERROR,
    CRITICAL,
}

impl LogLevel {
    /// The numeric level the interpreter's logging module uses.
    pub fn as_value(&self) -> (r: u8)
        ensures
            r == match *self {
                LogLevel::DEBUG => 10u8,
                LogLevel::INFO => 20u8,
                LogLevel::WARNING => 30u8,
                LogLevel::ERROR => 40u8,
                LogLevel::CRITICAL => 50u8,
            },
    {
        match self {
            LogLevel::DEBUG => 10,
            LogLevel::INFO => 20,
            LogLevel::WARNING => 30,
            LogLevel::ERROR => 40,
            LogLevel::CRITICAL => 50,
        }
    }
}

/// The number of words in a recovery phrase.
#[derive(Clone, Copy, Debug, PartialEq, Eq, Structural)]
pub enum HWIWordCount {
    W12,
    W18,
    W24,
}

impl HWIWordCount {
    /// The count itself.
    pub fn as_u8(&self) -> (r: u8)
        ensures
            r == match *self {
                HWIWordCount::W12 => 12u8,
                HWIWordCount::W18 => 18u8,
                HWIWordCount::W24 => 24u8,
            },
    {
        match self {
            HWIWordCount::W12 => 12,
            HWIWordCount::W18 => 18,
            HWIWordCount::W24 => 24,
        }
    }
}

} // verus!
