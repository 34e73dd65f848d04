//! The command builder: accumulates one invocation's argument tokens,
//! backend-agnostic. Every method appends its exact tokens and nothing
//! else; values carrying untrusted text (passwords, messages) always
//! travel as one opaque token, never concatenated into a shell string.

use vstd::prelude::*;

use crate::strutil::lemma_views_push;
use crate::strutil::spec_dec;
use crate::strutil::spec_hex;
use crate::strutil::spec_views;
use crate::strutil::u32_to_dec;
use crate::types::HWIAddressType;
use crate::types::HWIChain;
use crate::types::fingerprint_hex;
use crate::types::spec_addr_type_flag;
use crate::types::spec_chain_flag;

verus! {

/// The fixed vocabulary of subcommands.
#[derive(Clone, Copy, Debug, PartialEq, Eq, Structural)]
pub enum HWISubcommand {
    Enumerate,
    GetMasterXpub,
    SignTx,
    GetXpub,
    SignMessage,
    GetKeypool,
    GetDescriptors,
    DisplayAddress,
    Setup,
    Wipe,
    Restore,
    Backup,
    PromptPin,
    SendPin,
}

/// The lower-cased token of a subcommand.
pub open spec fn spec_subcommand_name(s: HWISubcommand) -> Seq<char> {
    match s {
        HWISubcommand::Enumerate => "enumerate"@,
        HWISubcommand::GetMasterXpub => "getmasterxpub"@,
        HWISubcommand::SignTx => "signtx"@,
        HWISubcommand::GetXpub => "getxpub"@,
        HWISubcommand::SignMessage => "signmessage"@,
        HWISubcommand::GetKeypool => "getkeypool"@,
        HWISubcommand::GetDescriptors => "getdescriptors"@,
        HWISubcommand::DisplayAddress => "displayaddress"@,
        HWISubcommand::Setup => "setup"@,
        HWISubcommand::Wipe => "wipe"@,
        HWISubcommand::Restore => "restore"@,
        HWISubcommand::Backup => "backup"@,
        HWISubcommand::PromptPin => "promptpin"@,
        HWISubcommand::SendPin => "sendpin"@,
    }
}

impl HWISubcommand {
    /// The token the external tool expects for this subcommand.
    pub fn name(&self) -> (r: String)
        ensures
            r@ == spec_subcommand_name(*self),
    {
        match self {
            HWISubcommand::Enumerate => "enumerate".to_owned(),
            HWISubcommand::GetMasterXpub => "getmasterxpub".to_owned(),
            HWISubcommand::SignTx => "signtx".to_owned(),
            HWISubcommand::GetXpub => "getxpub".to_owned(),
            HWISubcommand::SignMessage => "signmessage".to_owned(),
            HWISubcommand::GetKeypool => "getkeypool".to_owned(),
            HWISubcommand::GetDescriptors => "getdescriptors".to_owned(),
            HWISubcommand::DisplayAddress => "displayaddress".to_owned(),
            HWISubcommand::Setup => "setup".to_owned(),
            HWISubcommand::Wipe => "wipe".to_owned(),
            HWISubcommand::Restore => "restore".to_owned(),
            HWISubcommand::Backup => "backup".to_owned(),
            HWISubcommand::PromptPin => "promptpin".to_owned(),
            HWISubcommand::SendPin => "sendpin".to_owned(),
        }
    }
}

/// The parametrized global flags.
#[derive(Clone, Debug)]
pub enum HWIFlag {
    DevicePath(String),
    DeviceType(String),
    Password(String),
    Chain(HWIChain),
    AddrType(HWIAddressType),
    Fingerprint([u8; 4]),
}

/// The token pair a flag expands to: flag name, then its value as one
/// opaque token.
pub open spec fn spec_flag_tokens(f: HWIFlag) -> Seq<Seq<char>> {
    match f {
        HWIFlag::DevicePath(p) => seq!["--device-path"@, p@],
        HWIFlag::DeviceType(t) => seq!["--device-type"@, t@],
        HWIFlag::Password(p) => seq!["--password"@, p@],
        HWIFlag::Chain(c) => seq!["--chain"@, spec_chain_flag(c)],
        HWIFlag::AddrType(a) => seq!["--addr-type"@, spec_addr_type_flag(a)],
        HWIFlag::Fingerprint(fp) => seq!["--fingerprint"@, spec_hex(fp@)],
    }
}

/// The tokens `add_path` appends: an optional `--path` flag, then the
/// path, with an optional `/*` wildcard suffix for ranged queries.
pub open spec fn spec_path_tokens(path: Seq<char>, flag: bool, star: bool) -> Seq<Seq<char>> {
    let p = if star {
        path + "/*"@
    } else {
        path
    };
    if flag {
        seq!["--path"@, p]
    } else {
        seq![p]
    }
}

/// One invocation's ordered argument tokens. The builder never
/// reorders: callers append the subcommand first, then global flags,
/// then the operation's own tokens.
#[derive(Clone, Debug, PartialEq, Eq)]
pub struct HWICommand {
    args: Vec<String>,
}

impl Default for HWICommand {
    fn default() -> (r: HWICommand)
        ensures
            r.toks() =~= Seq::<Seq<char>>::empty(),
    {
        HWICommand::new()
    }
}

impl HWICommand {
    /// The accumulated tokens, as character sequences.
    pub closed spec fn toks(&self) -> Seq<Seq<char>> {
        spec_views(self.args@)
    }

    /// An empty invocation, bound to no subcommand yet.
    pub fn new() -> (r: HWICommand)
        ensures
            r.toks() =~= Seq::<Seq<char>>::empty(),
    {
        HWICommand { args: Vec::new() }
    }

    /// Appends the subcommand token.
    pub fn add_subcommand(&mut self, s: HWISubcommand)
        ensures
            final(self).toks() =~= old(self).toks().push(spec_subcommand_name(s)),
    {
        let tok = s.name();
        proof {
            lemma_views_push(self.args@, tok);
        }
        self.args.push(tok);
    }

    /// Appends a flag and its value.
    pub fn add_flag(&mut self, f: HWIFlag)
        ensures
            final(self).toks() =~= old(self).toks() + spec_flag_tokens(f),
    {
        let ghost f0 = f;
        match f {
            HWIFlag::DevicePath(p) => {
                self.push_tok("--device-path".to_owned());
                self.push_tok(p);
            },
            HWIFlag::DeviceType(t) => {
                self.push_tok("--device-type".to_owned());
                self.push_tok(t);
            },
            HWIFlag::Password(p) => {
                self.push_tok("--password".to_owned());
                self.push_tok(p);
            },
            HWIFlag::Chain(c) => {
                self.push_tok("--chain".to_owned());
                self.push_tok(c.flag_name());
            },
            HWIFlag::AddrType(a) => {
                self.push_tok("--addr-type".to_owned());
                self.push_tok(a.flag_name());
            },
            HWIFlag::Fingerprint(fp) => {
                self.push_tok("--fingerprint".to_owned());
                self.push_tok(fingerprint_hex(&fp));
            },
        }
        proof {
            assert(self.toks() =~= old(self).toks() + spec_flag_tokens(f0));
        }
    }

    /// Appends a derivation path, optionally flagged and optionally
    /// suffixed with the range wildcard.
    pub fn add_path(&mut self, path: &str, flag: bool, star: bool)
        ensures
            final(self).toks() =~= old(self).toks() + spec_path_tokens(path@, flag, star),
    {
        if flag {
            self.push_tok("--path".to_owned());
        }
        let mut p = path.to_owned();
        if star {
            p.append("/*");
        }
        self.push_tok(p);
        proof {
            assert(self.toks() =~= old(self).toks() + spec_path_tokens(path@, flag, star));
        }
    }

    /// Appends the `--expert` token when expert output is wanted.
    pub fn add_expert(&mut self, e: bool)
        ensures
            e ==> final(self).toks() =~= old(self).toks().push("--expert"@),
            !e ==> final(self).toks() =~= old(self).toks(),
    {
        if e {
            self.push_tok("--expert".to_owned());
        }
    }

    /// Appends a message as one opaque token, so embedded whitespace
    /// or control characters cannot become extra arguments.
    pub fn add_message(&mut self, message: &str)
        ensures
            final(self).toks() =~= old(self).toks().push(message@),
    {
        self.push_tok(message.to_owned());
    }

    /// Appends `--desc` and the descriptor as one opaque token.
    pub fn add_descriptor(&mut self, d: &str)
        ensures
            final(self).toks() =~= old(self).toks().push("--desc"@).push(d@),
    {
        self.push_tok("--desc".to_owned());
        self.push_tok(d.to_owned());
    }

    /// Appends `--account` and the account number.
    pub fn add_account(&mut self, a: u32)
        ensures
            final(self).toks() =~= old(self).toks().push("--account"@).push(spec_dec(a as nat)),
    {
        self.push_tok("--account".to_owned());
        self.push_tok(u32_to_dec(a));
    }

    /// Appends the address-type flag.
    pub fn add_address_type(&mut self, address_type: HWIAddressType)
        ensures
            final(self).toks() =~= old(self).toks().push("--addr-type"@).push(
                spec_addr_type_flag(address_type),
            ),
    {
        self.add_flag(HWIFlag::AddrType(address_type));
        proof {
            assert(self.toks() =~= old(self).toks().push("--addr-type"@).push(
                spec_addr_type_flag(address_type),
            ));
        }
    }

    /// Appends a serialized transaction as one opaque token.
    pub fn add_psbt(&mut self, p: &str)
        ensures
            final(self).toks() =~= old(self).toks().push(p@),
    {
        self.push_tok(p.to_owned());
    }

    /// Key-pool inclusion defaults to on: absence is affirmed by the
    /// explicit negating token.
    pub fn add_keypool(&mut self, k: bool)
        ensures
            !k ==> final(self).toks() =~= old(self).toks().push("--nokeypool"@),
            k ==> final(self).toks() =~= old(self).toks(),
    {
        if !k {
            self.push_tok("--nokeypool".to_owned());
        }
    }

    /// Appends the internal-keys token when change keys are wanted.
    pub fn add_internal(&mut self, i: bool)
        ensures
            i ==> final(self).toks() =~= old(self).toks().push("--internal"@),
            !i ==> final(self).toks() =~= old(self).toks(),
    {
        if i {
            self.push_tok("--internal".to_owned());
        }
    }

    /// Appends the inclusive range bounds of a key-pool query.
    pub fn add_start_end(&mut self, start: u32, end: u32)
        ensures
            final(self).toks() =~= old(self).toks().push(spec_dec(start as nat)).push(
                spec_dec(end as nat),
            ),
    {
        self.push_tok(u32_to_dec(start));
        self.push_tok(u32_to_dec(end));
    }

    /// Appends the chain flag.
    pub fn add_chain(&mut self, chain: HWIChain)
        ensures
            final(self).toks() =~= old(self).toks().push("--chain"@).push(spec_chain_flag(chain)),
    {
        self.add_flag(HWIFlag::Chain(chain));
        proof {
            assert(self.toks() =~= old(self).toks().push("--chain"@).push(
                spec_chain_flag(chain),
            ));
        }
    }

    /// Reads the accumulated tokens.
    pub fn args(&self) -> (r: &Vec<String>)
        ensures
            spec_views(r@) == self.toks(),
    {
        &self.args
    }

    /// Hands the tokens out, ready for an execution backend.
    pub fn into_args(self) -> (r: Vec<String>)
        ensures
            spec_views(r@) == self.toks(),
    {
        self.args
    }

    fn push_tok(&mut self, tok: String)
        ensures
            final(self).toks() =~= old(self).toks().push(tok@),
    {
        proof {
            lemma_views_push(self.args@, tok);
        }
        self.args.push(tok);
    }
}

} // verus!
