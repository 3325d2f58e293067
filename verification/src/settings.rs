//! The gateway's settings, as they are resolved once at startup.

use vstd::prelude::*;
use vstd::string::*;
use crate::text::{lower_text, same_text, slice_text, to_lowercase};

verus! {

pub const DEFAULT_ROCKERY_HOST: &'static str = "localhost";

pub const DEFAULT_ROCKERY_PORT: u16 = 3333;

pub const DEFAULT_TARGET_PORT: u16 = 80;

/// Where the gateway listens, where it forwards to, and whether forwarded
/// requests get the backend's host in place of their own.
#[derive(Debug)]
pub struct Settings {
    pub rockery_host: String,
    pub rockery_port: u16,
    pub target_host: String,
    pub target_port: u16,
    pub spoof_host_header: bool,
}

/// A setting with which the gateway cannot start.
#[derive(Clone, Copy, Debug, PartialEq, Eq, Structural)]
pub enum SettingsError {
    /// The listen port is no port number.
    RockeryPort,
    /// The backend's host is not set.
    TargetHost,
    /// The backend's port is no port number.
    TargetPort,
}

/// Whether every character of a text is a decimal digit.
pub open spec fn is_digits(text: Seq<char>) -> bool {
    forall|i: int| 0 <= i < text.len() ==> 0x30 <= (#[trigger] text[i]) as u32 <= 0x39
}

/// The number that decimal digits stand for.
pub open spec fn digits_value(digits: Seq<char>) -> nat
    decreases digits.len(),
{
    if digits.len() == 0 {
        0
    } else {
        (digits_value(digits.drop_last()) * 10 + (digits.last() as u32 - 0x30)) as nat
    }
}

/// The port number that a text stands for: one or more decimal digits, with
/// or without a plus sign before them, that make a number which fits 16
/// bits. Anything else stands for none.
pub open spec fn port_of_text(text: Seq<char>) -> Option<u16> {
    let digits = if text.len() > 0 && text[0] == '+' {
        text.drop_first()
    } else {
        text
    };
    if digits.len() > 0 && is_digits(digits) && digits_value(digits) <= 0xFFFF {
        Some(digits_value(digits) as u16)
    } else {
        None
    }
}

/// `str::parse` to a `u16`: the number that the text stands for. The text
/// must be decimal digits, a plus sign may stand before them, and the
/// number must fit.
#[verifier::external_body]
fn parse_port(text: &str) -> (port: Option<u16>)
    ensures
        port == port_of_text(text@),
{
    text.parse().ok()
}

/// Whether a value switches host-header spoofing on: `1` or `true` in any
/// letter case do, everything else and no value do not.
pub open spec fn spoofs(value: Option<Seq<char>>) -> bool {
    match value {
        Some(text) => lower_text(text) == "1"@ || lower_text(text) == "true"@,
        None => false,
    }
}

/// The port that a value names, the fallback for no value, or nothing for
/// a value that is no port number.
pub open spec fn port_of(value: Option<Seq<char>>, fallback: u16) -> Option<u16> {
    match value {
        Some(text) => port_of_text(text),
        None => Some(fallback),
    }
}

/// The settings that five values resolve to.
pub open spec fn resolved(
    rockery_host: Option<Seq<char>>,
    rockery_port: Option<Seq<char>>,
    target_host: Option<Seq<char>>,
    target_port: Option<Seq<char>>,
    spoof_host_header: Option<Seq<char>>,
    settings: Settings,
) -> bool {
    &&& settings.rockery_host@ == match rockery_host {
        Some(host) => host,
        None => DEFAULT_ROCKERY_HOST@,
    }
    &&& Some(settings.rockery_port) == port_of(rockery_port, DEFAULT_ROCKERY_PORT)
    &&& Some(settings.target_host@) == target_host
    &&& Some(settings.target_port) == port_of(target_port, DEFAULT_TARGET_PORT)
    &&& settings.spoof_host_header == spoofs(spoof_host_header)
}

/// The error, if any, with which five values fail to resolve: the first of
/// listen port, backend host, backend port that is wrong.
pub open spec fn resolve_error(
    rockery_port: Option<Seq<char>>,
    target_host: Option<Seq<char>>,
    target_port: Option<Seq<char>>,
) -> Option<SettingsError> {
    if port_of(rockery_port, DEFAULT_ROCKERY_PORT) is None {
        Some(SettingsError::RockeryPort)
    } else if target_host is None {
        Some(SettingsError::TargetHost)
    } else if port_of(target_port, DEFAULT_TARGET_PORT) is None {
        Some(SettingsError::TargetPort)
    } else {
        None
    }
}

/// Whether a value switches host-header spoofing on.
pub fn spoof_host_header(value: Option<&str>) -> (spoof: bool)
    ensures
        spoof == spoofs(slice_text(value)),
{
    match value {
        Some(text) => {
            let lower = to_lowercase(text);
            same_text(lower.as_str(), "1") || same_text(lower.as_str(), "true")
        },
        None => false,
    }
}

/// The port that a value names, or the fallback for no value.
pub fn port(value: Option<&str>, fallback: u16) -> (port: Option<u16>)
    ensures
        port == port_of(slice_text(value), fallback),
{
    match value {
        Some(text) => parse_port(text),
        None => Some(fallback),
    }
}

impl SettingsError {
    /// The message of this error.
    pub fn message(&self) -> (text: &'static str)
        ensures
            text@ == match self {
                SettingsError::RockeryPort => "ROCKERY_PORT is not a valid port number"@,
                SettingsError::TargetHost => "TARGET_HOST env variable is not set!"@,
                SettingsError::TargetPort => "TARGET_PORT is not a valid port number"@,
            },
    {
        match self {
            SettingsError::RockeryPort => "ROCKERY_PORT is not a valid port number",
            SettingsError::TargetHost => "TARGET_HOST env variable is not set!",
            SettingsError::TargetPort => "TARGET_PORT is not a valid port number",
        }
    }
}

impl Settings {
    /// Resolves the settings from the values of `ROCKERY_HOST`,
    /// `ROCKERY_PORT`, `TARGET_HOST`, `TARGET_PORT` and `SPOOF_HOST_HEADER`.
    /// Only the backend's host has no default.
    pub fn resolve(
        rockery_host: Option<&str>,
        rockery_port: Option<&str>,
        target_host: Option<&str>,
        target_port: Option<&str>,
        spoof: Option<&str>,
    ) -> (outcome: Result<Settings, SettingsError>)
        ensures
            match outcome {
                Ok(settings) => resolved(
                    slice_text(rockery_host),
                    slice_text(rockery_port),
                    slice_text(target_host),
                    slice_text(target_port),
                    slice_text(spoof),
                    settings,
                ) && resolve_error(
                    slice_text(rockery_port),
                    slice_text(target_host),
                    slice_text(target_port),
                ) is None,
                Err(error) => resolve_error(
                    slice_text(rockery_port),
                    slice_text(target_host),
                    slice_text(target_port),
                ) == Some(error),
            },
    {
        let listen_port = match port(rockery_port, DEFAULT_ROCKERY_PORT) {
            Some(number) => number,
            None => { return Err(SettingsError::RockeryPort); },
        };
        let backend = match target_host {
            Some(host) => String::from_str(host),
            None => { return Err(SettingsError::TargetHost); },
        };
        let backend_port = match port(target_port, DEFAULT_TARGET_PORT) {
            Some(number) => number,
            None => { return Err(SettingsError::TargetPort); },
        };
        Ok(
            Settings {
                rockery_host: match rockery_host {
                    Some(host) => String::from_str(host),
                    None => String::from_str(DEFAULT_ROCKERY_HOST),
                },
                rockery_port: listen_port,
                target_host: backend,
                target_port: backend_port,
                spoof_host_header: spoof_host_header(spoof),
            },
        )
    }
}

} // verus!
