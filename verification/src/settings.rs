//! The configuration of the process: how it is gathered, checked and held.

use vstd::prelude::*;
use vstd::string::*;

use crate::address::{IpAddress, MacAddr};
use crate::cli::Args;

verus! {

/// The least number of characters that a passphrase may have.
pub const MIN_PASSPHRASE_CHARS: usize = 8;

/// Why the configuration was refused.
#[derive(Clone, Copy, Debug, PartialEq, Eq, Structural)]
pub enum ConfigurationError {
    /// An IP address was given and is no IPv4 or IPv6 address.
    InvalidIpAddress,
    /// No MAC address was given.
    MissingMacAddress,
    /// The MAC address does not read as six octets.
    InvalidMacAddress,
    /// No passphrase was given.
    MissingPassphrase,
    /// The passphrase has fewer than `MIN_PASSPHRASE_CHARS` characters.
    PassphraseTooShort,
    /// The settings were set before, and cannot be replaced.
    AlreadyInitialized,
}

impl ConfigurationError {
    /// The text shown for the error.
    pub open spec fn spec_message(self) -> Seq<char> {
        match self {
            ConfigurationError::InvalidIpAddress => "invalid IP address syntax"@,
            ConfigurationError::MissingMacAddress => "MAC address not set"@,
            ConfigurationError::InvalidMacAddress => "Invalid MAC address syntax"@,
            ConfigurationError::MissingPassphrase => "passphrase not set"@,
            ConfigurationError::PassphraseTooShort => "Passphrase must be at least 8 characters long"@,
            ConfigurationError::AlreadyInitialized => "Could not set global Settings"@,
        }
    }

    /// The text shown for the error.
    pub fn message(self) -> (text: String)
        ensures
            text@ == self.spec_message(),
    {
        match self {
            ConfigurationError::InvalidIpAddress => "invalid IP address syntax".to_owned(),
            ConfigurationError::MissingMacAddress => "MAC address not set".to_owned(),
            ConfigurationError::InvalidMacAddress => "Invalid MAC address syntax".to_owned(),
            ConfigurationError::MissingPassphrase => "passphrase not set".to_owned(),
            ConfigurationError::PassphraseTooShort => "Passphrase must be at least 8 characters long".to_owned(),
            ConfigurationError::AlreadyInitialized => "Could not set global Settings".to_owned(),
        }
    }
}

/// The configuration: the device to wake, the secret that allows it, and the
/// address at which the device is watched. Without an address the device is
/// not watched.
#[derive(Clone, Debug, PartialEq, Eq)]
pub struct Settings {
    pub mac_address: MacAddr,
    pub passphrase: String,
    pub ip_address: Option<IpAddress>,
}

impl Settings {
    /// What holds of settings that passed `check_fields`.
    pub open spec fn valid(&self) -> bool {
        self.passphrase@.len() >= MIN_PASSPHRASE_CHARS
    }
}

/// What the environment's variables gave. A field is `None` where its
/// variable was unset.
#[derive(Clone, Debug, PartialEq, Eq)]
pub struct Environment {
    pub mac_address: Option<String>,
    pub ip_address: Option<String>,
    pub passphrase: Option<String>,
}

/// The texts that the settings are to be made of, each from the command line
/// or, where that gave none, from the environment.
#[derive(Clone, Debug, PartialEq, Eq)]
pub struct Candidate {
    pub mac_address: Option<String>,
    pub ip_address: Option<String>,
    pub passphrase: Option<String>,
}

/// The first of two values that is there.
pub open spec fn first_of(first: Option<String>, second: Option<String>) -> Option<String> {
    if first is Some {
        first
    } else {
        second
    }
}

/// Puts the command line before the environment, field by field.
pub fn merge_sources(args: Args, env: Environment) -> (candidate: Candidate)
    ensures
        candidate.mac_address == first_of(args.mac_address, env.mac_address),
        candidate.ip_address == first_of(args.ip_address, env.ip_address),
        candidate.passphrase == first_of(args.passphrase, env.passphrase),
{
    let Args { mac_address, ip_address, passphrase, port: _ } = args;
    Candidate {
        mac_address: pick(mac_address, env.mac_address),
        ip_address: pick(ip_address, env.ip_address),
        passphrase: pick(passphrase, env.passphrase),
    }
}

fn pick(first: Option<String>, second: Option<String>) -> (chosen: Option<String>)
    ensures
        chosen == first_of(first, second),
{
    match first {
        Some(text) => Some(text),
        None => second,
    }
}

/// The settings that the gathered texts give, or the first reason against
/// them. `mac` and `ip` are what the two address texts denote, `None` where
/// a text is absent or denotes no address.
pub open spec fn checked(candidate: Candidate, mac: Option<MacAddr>, ip: Option<IpAddress>) -> Result<
    Settings,
    ConfigurationError,
> {
    if candidate.ip_address is Some && ip is None {
        Err(ConfigurationError::InvalidIpAddress)
    } else if candidate.mac_address is None {
        Err(ConfigurationError::MissingMacAddress)
    } else if mac is None {
        Err(ConfigurationError::InvalidMacAddress)
    } else if candidate.passphrase is None {
        Err(ConfigurationError::MissingPassphrase)
    } else if candidate.passphrase->0@.len() < MIN_PASSPHRASE_CHARS {
        Err(ConfigurationError::PassphraseTooShort)
    } else {
        Ok(
            Settings {
                mac_address: mac->0,
                passphrase: candidate.passphrase->0,
                ip_address: if candidate.ip_address is Some {
                    ip
                } else {
                    None
                },
            },
        )
    }
}

/// Checks the gathered texts against the two addresses read from them.
///
/// An IP address that does not read is reported first, then a missing or
/// unreadable MAC address, then a missing or short passphrase.
pub fn check_fields(candidate: Candidate, mac: Option<MacAddr>, ip: Option<IpAddress>) -> (settings:
    Result<Settings, ConfigurationError>)
    ensures
        settings == checked(candidate, mac, ip),
        settings matches Ok(s) ==> s.valid(),
{
    let Candidate { mac_address, ip_address, passphrase } = candidate;
    let ip_address = match ip_address {
        Some(_) => match ip {
            Some(address) => Some(address),
            None => {
                return Err(ConfigurationError::InvalidIpAddress);
            },
        },
        None => None,
    };
    if mac_address.is_none() {
        return Err(ConfigurationError::MissingMacAddress);
    }
    let mac_address = match mac {
        Some(address) => address,
        None => {
            return Err(ConfigurationError::InvalidMacAddress);
        },
    };
    let passphrase = match passphrase {
        Some(text) => text,
        None => {
            return Err(ConfigurationError::MissingPassphrase);
        },
    };
    if passphrase.as_str().unicode_len() < MIN_PASSPHRASE_CHARS {
        return Err(ConfigurationError::PassphraseTooShort);
    }
    Ok(Settings { mac_address, passphrase, ip_address })
}

/// The MAC address that the gathered texts denote.
pub open spec fn candidate_mac(candidate: Candidate) -> Option<MacAddr> {
    match candidate.mac_address {
        Some(text) => MacAddr::parsed(text@),
        None => None,
    }
}

/// Makes the settings of the gathered texts.
///
/// The MAC address is read here. The IP address is read by the caller, who
/// hands in what `candidate.ip_address` denotes: `None` where it is absent or
/// is no IPv4 or IPv6 address.
pub fn parse_args(candidate: Candidate, ip: Option<IpAddress>) -> (settings: Result<
    Settings,
    ConfigurationError,
>)
    ensures
        settings == checked(candidate, candidate_mac(candidate), ip),
        settings matches Ok(s) ==> s.valid(),
{
    let mac = match &candidate.mac_address {
        Some(text) => MacAddr::parse(text.as_str()),
        None => None,
    };
    check_fields(candidate, mac, ip)
}

/// Holds the settings of the process: empty until they are set, and never
/// changed after.
pub struct SettingsStore {
    slot: Option<Settings>,
}

impl View for SettingsStore {
    type V = Option<Settings>;

    closed spec fn view(&self) -> Option<Settings> {
        self.slot
    }
}

impl SettingsStore {
    /// A store that holds no settings yet.
    pub fn new() -> (store: SettingsStore)
        ensures
            store@ is None,
    {
        SettingsStore { slot: None }
    }

    /// Sets the settings, once. A store that holds settings keeps them and
    /// refuses the new ones.
    pub fn initialize(&mut self, settings: Settings) -> (outcome: Result<(), ConfigurationError>)
        ensures
            old(self)@ is None ==> outcome is Ok && final(self)@ == Some(settings),
            old(self)@ is Some ==> outcome == Err::<(), ConfigurationError>(
                ConfigurationError::AlreadyInitialized,
            ) && final(self)@ == old(self)@,
    {
        if self.slot.is_some() {
            return Err(ConfigurationError::AlreadyInitialized);
        }
        self.slot = Some(settings);
        Ok(())
    }

    /// The settings, if they were set.
    pub fn get(&self) -> (settings: Option<&Settings>)
        ensures
            settings is Some == self@ is Some,
            settings matches Some(s) ==> self@ == Some(*s),
    {
        self.slot.as_ref()
    }
}

} // verus!
