//! Registering the launcher as a Windows Service: the start type, the
//! service's registry key and the environment block that points the service
//! at the installation root.
use crate::config::launcher::Service;
use crate::error::Error;
use vstd::prelude::*;
use vstd::string::*;

verus! {

/// The start type chosen on the command line, or the one in `launcher.toml`.
#[derive(Debug, Clone, Copy, PartialEq, Eq, Structural)]
pub enum StartTypeOverride {
    Auto,
    Manual,
    Disabled,
    FromConfig,
}

/// How the Service Control Manager starts the service.
#[derive(Debug, Clone, Copy, PartialEq, Eq, Structural)]
pub enum StartType {
    AutoStart,
    OnDemand,
    Disabled,
}

/// The start type that `service install --auto/--manual/--disabled` asks
/// for; the flags are mutually exclusive, and without one the configured
/// start type applies.
pub fn start_override_from_flags(auto: bool, manual: bool, disabled: bool) -> (o: StartTypeOverride)
    ensures
        o == (if auto {
            StartTypeOverride::Auto
        } else if manual {
            StartTypeOverride::Manual
        } else if disabled {
            StartTypeOverride::Disabled
        } else {
            StartTypeOverride::FromConfig
        }),
{
    if auto {
        StartTypeOverride::Auto
    } else if manual {
        StartTypeOverride::Manual
    } else if disabled {
        StartTypeOverride::Disabled
    } else {
        StartTypeOverride::FromConfig
    }
}

/// The start type's name: the override's own, or `service.start_type`.
pub open spec fn start_type_name(o: StartTypeOverride, cfg: Service) -> Seq<char> {
    match o {
        StartTypeOverride::Auto => "auto"@,
        StartTypeOverride::Manual => "manual"@,
        StartTypeOverride::Disabled => "disabled"@,
        StartTypeOverride::FromConfig => cfg.start_type@,
    }
}

impl StartTypeOverride {
    /// `auto`, `manual` and `disabled` name the three start types; any other
    /// name is a configuration error.
    pub fn resolve(self, cfg: &Service) -> (res: Result<StartType, Error>)
        ensures
            ({
                let raw = start_type_name(self, *cfg);
                if raw == "auto"@ {
                    res == Ok::<StartType, Error>(StartType::AutoStart)
                } else if raw == "manual"@ {
                    res == Ok::<StartType, Error>(StartType::OnDemand)
                } else if raw == "disabled"@ {
                    res == Ok::<StartType, Error>(StartType::Disabled)
                } else {
                    res matches Err(Error::Config(m)) && m@ == "invalid start_type '"@ + raw
                        + "'"@
                }
            }),
    {
        let raw = match self {
            StartTypeOverride::Auto => "auto",
            StartTypeOverride::Manual => "manual",
            StartTypeOverride::Disabled => "disabled",
            StartTypeOverride::FromConfig => cfg.start_type.as_str(),
        };
        if crate::text::same_text(raw, "auto") {
            Ok(StartType::AutoStart)
        } else if crate::text::same_text(raw, "manual") {
            Ok(StartType::OnDemand)
        } else if crate::text::same_text(raw, "disabled") {
            Ok(StartType::Disabled)
        } else {
            let mut m = "invalid start_type '".to_owned();
            m.append(raw);
            m.append("'");
            Err(Error::Config(m))
        }
    }
}

/// The registry key of the service `name` under `HKEY_LOCAL_MACHINE`.
pub fn service_registry_key(name: &str) -> (key: String)
    ensures
        key@ == "SYSTEM\\CurrentControlSet\\Services\\"@ + name@,
{
    let mut key = "SYSTEM\\CurrentControlSet\\Services\\".to_owned();
    key.append(name);
    key
}

/// The UTF-16 code units of one character.
pub open spec fn utf16_of(c: char) -> Seq<u16> {
    let v = c as u32;
    if v < 0x10000 {
        seq![v as u16]
    } else {
        seq![
            (0xd800 + (v - 0x10000) / 0x400) as u16,
            (0xdc00 + (v - 0x10000) % 0x400) as u16,
        ]
    }
}

/// The UTF-16 encoding of a text (what `str::encode_utf16` yields).
pub open spec fn utf16(s: Seq<char>) -> Seq<u16>
    decreases s.len(),
{
    if s.len() == 0 {
        Seq::empty()
    } else {
        utf16(s.drop_last()) + utf16_of(s.last())
    }
}

/// The `Environment` value of the service: one entry, `ARMAFIELD_HOME=<home>`,
/// as a `REG_MULTI_SZ` block in UTF-16: the entry, its terminating NUL, and
/// the NUL that ends the block.
pub open spec fn environment_block(home: Seq<char>) -> Seq<u16> {
    utf16("ARMAFIELD_HOME="@ + home) + seq![0u16, 0u16]
}

pub fn service_environment(home: &str) -> (block: Vec<u16>)
    ensures
        block@ == environment_block(home@),
{
    let mut entry = "ARMAFIELD_HOME=".to_owned();
    entry.append(home);
    let text = entry.as_str();
    let n = text.unicode_len();
    let mut block: Vec<u16> = Vec::new();
    let mut i: usize = 0;
    while i < n
        invariant
            n == text@.len(),
            i <= n,
            block@ == utf16(text@.subrange(0, i as int)),
        decreases n - i,
    {
        let c = text.get_char(i);
        let v = c as u32;
        if v < 0x10000 {
            block.push(v as u16);
        } else {
            block.push((0xd800 + (v - 0x10000) / 0x400) as u16);
            block.push((0xdc00 + (v - 0x10000) % 0x400) as u16);
        }
        assert(text@.subrange(0, i + 1).drop_last() =~= text@.subrange(0, i as int));
        i = i + 1;
    }
    assert(text@.subrange(0, n as int) =~= text@);
    block.push(0);
    block.push(0);
    block
}

/// The bytes of UTF-16 code units as the registry stores them (little endian).
pub open spec fn le_bytes(units: Seq<u16>) -> Seq<u8>
    decreases units.len(),
{
    if units.len() == 0 {
        Seq::empty()
    } else {
        le_bytes(units.drop_last()) + seq![
            (units.last() % 256) as u8,
            (units.last() / 256) as u8,
        ]
    }
}

pub fn registry_bytes(units: &Vec<u16>) -> (bytes: Vec<u8>)
    ensures
        bytes@ == le_bytes(units@),
{
    let mut bytes: Vec<u8> = Vec::new();
    let mut i: usize = 0;
    while i < units.len()
        invariant
            i <= units@.len(),
            bytes@ == le_bytes(units@.subrange(0, i as int)),
        decreases units@.len() - i,
    {
        let u = units[i];
        bytes.push((u % 256) as u8);
        bytes.push((u / 256) as u8);
        assert(units@.subrange(0, i + 1).drop_last() =~= units@.subrange(0, i as int));
        i = i + 1;
    }
    assert(units@.subrange(0, units@.len() as int) =~= units@);
    bytes
}

} // verus!
