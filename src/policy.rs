//! Per-guild moderation policy: the stored record, its default, operator
//! updates, and an in-memory table keyed by guild.

use vstd::prelude::*;
use crate::decimal::{decimal_text, u64_to_decimal};

verus! {

/// Sensitivity is held in millionths: `1_000_000` stands for `1.0`.
pub const SENSITIVITY_SCALE: u32 = 1_000_000;

/// The warning count of a guild with no stored policy.
pub const DEFAULT_WARNINGS: i32 = 3;

/// The sensitivity of a guild with no stored policy, in millionths (`0.5`).
pub const DEFAULT_SENSITIVITY: u32 = 500_000;

/// One guild's moderation policy.
#[derive(Debug, Clone, PartialEq, Eq)]
pub struct ServerSettings {
    pub guild_id: String,
    pub warnings: i32,
    /// A duration such as `10m`, read when a mute is applied.
    pub mute_time: String,
    pub use_warnings: bool,
    /// In millionths, at most `SENSITIVITY_SCALE`.
    pub sensitivity: u32,
    pub logs_channel_id: Option<String>,
    pub mute_enabled: bool,
}

pub struct SettingsView {
    pub guild_id: Seq<char>,
    pub warnings: int,
    pub mute_time: Seq<char>,
    pub use_warnings: bool,
    pub sensitivity: nat,
    pub logs_channel_id: Option<Seq<char>>,
    pub mute_enabled: bool,
}

pub open spec fn opt_text_view(o: Option<String>) -> Option<Seq<char>> {
    match o {
        Some(s) => Some(s@),
        None => None,
    }
}

impl View for ServerSettings {
    type V = SettingsView;

    open spec fn view(&self) -> SettingsView {
        SettingsView {
            guild_id: self.guild_id@,
            warnings: self.warnings as int,
            mute_time: self.mute_time@,
            use_warnings: self.use_warnings,
            sensitivity: self.sensitivity as nat,
            logs_channel_id: opt_text_view(self.logs_channel_id),
            mute_enabled: self.mute_enabled,
        }
    }
}

impl ServerSettings {
    pub open spec fn wf(&self) -> bool {
        self.sensitivity <= SENSITIVITY_SCALE
    }

    /// A field-for-field copy.
    pub fn duplicate(&self) -> (r: ServerSettings)
        ensures
            r@ == self@,
    {
        let logs_channel_id = match &self.logs_channel_id {
            Some(c) => Some(c.clone()),
            None => None,
        };
        ServerSettings {
            guild_id: self.guild_id.clone(),
            warnings: self.warnings,
            mute_time: self.mute_time.clone(),
            use_warnings: self.use_warnings,
            sensitivity: self.sensitivity,
            logs_channel_id,
            mute_enabled: self.mute_enabled,
        }
    }
}

pub open spec fn default_mute_time() -> Seq<char> {
    seq!['1', '0', 'm']
}

/// The policy of a guild that has none stored.
pub open spec fn default_view(guild_id: Seq<char>) -> SettingsView {
    SettingsView {
        guild_id,
        warnings: 3,
        mute_time: default_mute_time(),
        use_warnings: false,
        sensitivity: 500_000,
        logs_channel_id: None,
        mute_enabled: false,
    }
}

pub open spec fn stored_view(o: Option<ServerSettings>) -> Option<SettingsView> {
    match o {
        Some(s) => Some(s@),
        None => None,
    }
}

/// The stored policy if there is one, else the default for the guild.
pub open spec fn resolved_view(guild_id: Seq<char>, stored: Option<SettingsView>) -> SettingsView {
    match stored {
        Some(s) => s,
        None => default_view(guild_id),
    }
}

/// The default policy of `guild_id`.
pub fn default_settings(guild_id: &str) -> (r: ServerSettings)
    ensures
        r@ == default_view(guild_id@),
        r.wf(),
{
    proof {
        reveal_strlit("10m");
    }
    assert("10m"@ =~= default_mute_time());
    ServerSettings {
        guild_id: String::from_str(guild_id),
        warnings: DEFAULT_WARNINGS,
        mute_time: String::from_str("10m"),
        use_warnings: false,
        sensitivity: DEFAULT_SENSITIVITY,
        logs_channel_id: None,
        mute_enabled: false,
    }
}

/// The policy in force for `guild_id`, given what the store returned for it.
pub fn resolve_settings(guild_id: &str, stored: Option<ServerSettings>) -> (r: ServerSettings)
    ensures
        r@ == resolved_view(guild_id@, stored_view(stored)),
        stored.is_none() ==> r.wf(),
        stored.is_some() ==> r == stored.unwrap(),
{
    match stored {
        Some(s) => s,
        None => default_settings(guild_id),
    }
}

/// An operator's change to one field of a guild's policy.
#[derive(Debug, PartialEq, Eq)]
pub enum PolicyUpdate {
    Warnings(i32),
    MuteEnabled(bool),
    MuteTime(String),
    UseWarnings(bool),
    /// In millionths.
    Sensitivity(i64),
    LogsChannel(u64),
}

/// Why an update was refused.
#[derive(PartialEq, Eq, Structural, Debug, Clone, Copy)]
pub enum PolicyError {
    SensitivityOutOfRange,
}

pub open spec fn update_accepted(u: PolicyUpdate) -> bool {
    match u {
        PolicyUpdate::Sensitivity(v) => 0 <= v <= SENSITIVITY_SCALE,
        _ => true,
    }
}

/// `s` with the one field that `u` names set.
pub open spec fn updated_view(s: SettingsView, u: PolicyUpdate) -> SettingsView {
    match u {
        PolicyUpdate::Warnings(w) => SettingsView { warnings: w as int, ..s },
        PolicyUpdate::MuteEnabled(b) => SettingsView { mute_enabled: b, ..s },
        PolicyUpdate::MuteTime(t) => SettingsView { mute_time: t@, ..s },
        PolicyUpdate::UseWarnings(b) => SettingsView { use_warnings: b, ..s },
        PolicyUpdate::Sensitivity(v) => SettingsView { sensitivity: v as nat, ..s },
        PolicyUpdate::LogsChannel(c) => SettingsView {
            logs_channel_id: Some(decimal_text(c as nat)),
            ..s
        },
    }
}

/// Checks a sensitivity given in millionths: it must lie in `[0, 1]`, both ends included.
pub fn check_sensitivity(millionths: i64) -> (r: Result<u32, PolicyError>)
    ensures
        0 <= millionths <= SENSITIVITY_SCALE <==> r is Ok,
        r matches Ok(v) ==> v as int == millionths,
        r matches Err(e) ==> e == PolicyError::SensitivityOutOfRange,
{
    if millionths < 0 || millionths > SENSITIVITY_SCALE as i64 {
        Err(PolicyError::SensitivityOutOfRange)
    } else {
        Ok(millionths as u32)
    }
}

/// Applies `update` to the policy of `guild_id`, starting from the stored policy
/// or, where none is stored, from the default. The record to store comes back;
/// an out-of-range sensitivity is refused and nothing changes.
pub fn apply_update(guild_id: &str, stored: Option<ServerSettings>, update: PolicyUpdate) -> (r:
    Result<ServerSettings, PolicyError>)
    requires
        stored matches Some(s) ==> s.wf(),
    ensures
        update_accepted(update) <==> r is Ok,
        r matches Ok(s) ==> s.wf() && s@ == updated_view(
            resolved_view(guild_id@, stored_view(stored)),
            update,
        ),
        r matches Err(e) ==> e == PolicyError::SensitivityOutOfRange,
{
    let mut s = resolve_settings(guild_id, stored);
    match update {
        PolicyUpdate::Warnings(w) => {
            s.warnings = w;
        },
        PolicyUpdate::MuteEnabled(b) => {
            s.mute_enabled = b;
        },
        PolicyUpdate::MuteTime(t) => {
            s.mute_time = t;
        },
        PolicyUpdate::UseWarnings(b) => {
            s.use_warnings = b;
        },
        PolicyUpdate::Sensitivity(v) => {
            let checked = check_sensitivity(v);
            match checked {
                Ok(x) => {
                    s.sensitivity = x;
                },
                Err(e) => {
                    return Err(e);
                },
            }
        },
        PolicyUpdate::LogsChannel(c) => {
            s.logs_channel_id = Some(u64_to_decimal(c));
        },
    }
    assert(s@ == updated_view(resolved_view(guild_id@, stored_view(stored)), update));
    Ok(s)
}

} // verus!
