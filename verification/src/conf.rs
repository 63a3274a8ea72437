//! The persisted configuration document and the rules for changing its
//! connectivity section one named field at a time.

use vstd::prelude::*;
use vstd::string::*;
use crate::text::{joined, same_text};

verus! {

/// How the device proves itself to the network.
#[derive(Debug, Clone, Copy, PartialEq, Eq, Structural)]
pub enum WifiAuthMethod {
    Personal,
    Enterprise,
}

impl WifiAuthMethod {
    /// The name under which the mode is stored and shown.
    pub open spec fn name(self) -> Seq<char> {
        match self {
            WifiAuthMethod::Personal => "WPA2_PERSONAL"@,
            WifiAuthMethod::Enterprise => "WPA2_ENTERPRISE"@,
        }
    }

    /// The name under which the mode is stored and shown.
    pub fn to_string(&self) -> (s: String)
        ensures
            s@ == self.name(),
    {
        match self {
            WifiAuthMethod::Personal => "WPA2_PERSONAL".to_owned(),
            WifiAuthMethod::Enterprise => "WPA2_ENTERPRISE".to_owned(),
        }
    }
}

/// Connectivity settings.
#[derive(Debug, Clone, PartialEq, Eq)]
pub struct WifiConfig {
    pub enable: bool,
    pub ssid: String,
    pub password: String,
    pub auth: WifiAuthMethod,
    pub identity: String,
    pub username: String,
}

/// Limits of the motor power.
#[derive(Debug, Clone, PartialEq, Eq)]
pub struct MotorConfig {
    pub max_power: i64,
    pub min_power: i64,
}

/// Settings of the remote log stream.
#[derive(Debug, Clone, PartialEq, Eq)]
pub struct RemoteLogConfig {
    pub enable: bool,
    pub port: u32,
}

/// The whole document: three sections that do not depend on each other.
#[derive(Debug, Clone, PartialEq, Eq)]
pub struct Config {
    pub wifi: WifiConfig,
    pub motor: MotorConfig,
    pub remote_log: RemoteLogConfig,
}

/// The connectivity settings as plain values.
pub struct WifiSettings {
    pub enable: bool,
    pub ssid: Seq<char>,
    pub password: Seq<char>,
    pub auth: WifiAuthMethod,
    pub identity: Seq<char>,
    pub username: Seq<char>,
}

/// The document as plain values.
pub struct Settings {
    pub wifi: WifiSettings,
    pub max_power: int,
    pub min_power: int,
    pub remote_log_enable: bool,
    pub remote_log_port: nat,
}

impl View for WifiConfig {
    type V = WifiSettings;

    open spec fn view(&self) -> WifiSettings {
        WifiSettings {
            enable: self.enable,
            ssid: self.ssid@,
            password: self.password@,
            auth: self.auth,
            identity: self.identity@,
            username: self.username@,
        }
    }
}

impl View for Config {
    type V = Settings;

    open spec fn view(&self) -> Settings {
        Settings {
            wifi: self.wifi@,
            max_power: self.motor.max_power as int,
            min_power: self.motor.min_power as int,
            remote_log_enable: self.remote_log.enable,
            remote_log_port: self.remote_log.port as nat,
        }
    }
}

impl Default for Config {
    /// The document of a device that was never configured: networking on with
    /// nothing filled in, motor power from 50 to 100, remote log on port 8070.
    fn default() -> (r: Self)
        ensures
            r@ == (Settings {
                wifi: WifiSettings {
                    enable: true,
                    ssid: Seq::<char>::empty(),
                    password: Seq::<char>::empty(),
                    auth: WifiAuthMethod::Personal,
                    identity: Seq::<char>::empty(),
                    username: Seq::<char>::empty(),
                },
                max_power: 100,
                min_power: 50,
                remote_log_enable: true,
                remote_log_port: 8070,
            }),
    {
        Config {
            wifi: WifiConfig {
                enable: true,
                ssid: String::new(),
                password: String::new(),
                auth: WifiAuthMethod::Personal,
                identity: String::new(),
                username: String::new(),
            },
            motor: MotorConfig { max_power: 100, min_power: 50 },
            remote_log: RemoteLogConfig { enable: true, port: 8070 },
        }
    }
}

/// Why a request on a connectivity field was turned down.
#[derive(Debug, Clone, Copy, PartialEq, Eq, Structural)]
pub enum ConfigErrorKind {
    /// The value for `enable` is none of the accepted words.
    InvalidEnable,
    /// The value for `auth` names no known mode.
    InvalidAuth,
    /// There is no field of that name.
    InvalidField,
}

/// A request that was turned down, with the word that caused it: the value
/// for a bad value, the field's name for an unknown field.
#[derive(Debug, Clone, PartialEq, Eq)]
pub struct ConfigError {
    pub kind: ConfigErrorKind,
    pub subject: String,
}

impl View for ConfigError {
    type V = (ConfigErrorKind, Seq<char>);

    open spec fn view(&self) -> (ConfigErrorKind, Seq<char>) {
        (self.kind, self.subject@)
    }
}

/// The sentence that reports an error of `kind` about `subject`.
pub open spec fn error_text(kind: ConfigErrorKind, subject: Seq<char>) -> Seq<char> {
    match kind {
        ConfigErrorKind::InvalidEnable => "Invalid value for 'enabled': "@ + subject
            + ". Valid values are true/yes and false/no"@,
        ConfigErrorKind::InvalidAuth => "Invalid value for 'auth': "@ + subject
            + ". Valid values are WPA2_PERSONAL and WPA2_ENTERPRISE"@,
        ConfigErrorKind::InvalidField => "Invalid field "@ + subject,
    }
}

impl ConfigError {
    /// The sentence that reports this error.
    pub fn to_string(&self) -> (s: String)
        ensures
            s@ == error_text(self.kind, self.subject@),
    {
        match self.kind {
            ConfigErrorKind::InvalidEnable => {
                let mut s = joined("Invalid value for 'enabled': ", self.subject.as_str());
                s.append(". Valid values are true/yes and false/no");
                s
            },
            ConfigErrorKind::InvalidAuth => {
                let mut s = joined("Invalid value for 'auth': ", self.subject.as_str());
                s.append(". Valid values are WPA2_PERSONAL and WPA2_ENTERPRISE");
                s
            },
            ConfigErrorKind::InvalidField => joined("Invalid field ", self.subject.as_str()),
        }
    }
}

/// What a word given for `enable` means: `yes`, `y` and `true` switch on,
/// `no`, `n` and `false` switch off, in exactly this spelling.
pub open spec fn enable_word(val: Seq<char>) -> Option<bool> {
    if val == "yes"@ || val == "y"@ || val == "true"@ {
        Some(true)
    } else if val == "no"@ || val == "n"@ || val == "false"@ {
        Some(false)
    } else {
        None
    }
}

/// What a word given for `auth` means.
pub open spec fn auth_word(val: Seq<char>) -> Option<WifiAuthMethod> {
    if val == "WPA2_PERSONAL"@ || val == "Personal"@ || val == "personal"@ {
        Some(WifiAuthMethod::Personal)
    } else if val == "WPA2_ENTERPRISE"@ || val == "Enterprise"@ || val == "enterprise"@ {
        Some(WifiAuthMethod::Enterprise)
    } else {
        None
    }
}

/// The settings after `field` was set to `val`, or the reason why it cannot
/// be. Exactly the named field changes; `ssid`, `password`, `identity` and
/// `username` take any text as it is.
pub open spec fn updated(
    c: WifiSettings,
    field: Seq<char>,
    val: Seq<char>,
) -> Result<WifiSettings, (ConfigErrorKind, Seq<char>)> {
    if field == "enable"@ {
        match enable_word(val) {
            Some(on) => Ok(WifiSettings { enable: on, ..c }),
            None => Err((ConfigErrorKind::InvalidEnable, val)),
        }
    } else if field == "ssid"@ {
        Ok(WifiSettings { ssid: val, ..c })
    } else if field == "password"@ {
        Ok(WifiSettings { password: val, ..c })
    } else if field == "auth"@ {
        match auth_word(val) {
            Some(mode) => Ok(WifiSettings { auth: mode, ..c }),
            None => Err((ConfigErrorKind::InvalidAuth, val)),
        }
    } else if field == "identity"@ {
        Ok(WifiSettings { identity: val, ..c })
    } else if field == "username"@ {
        Ok(WifiSettings { username: val, ..c })
    } else {
        Err((ConfigErrorKind::InvalidField, field))
    }
}

/// How `true` and `false` are shown.
pub open spec fn bool_text(b: bool) -> Seq<char> {
    if b {
        "true"@
    } else {
        "false"@
    }
}

/// The text shown for `field`, or the reason why there is none.
pub open spec fn shown(c: WifiSettings, field: Seq<char>) -> Result<
    Seq<char>,
    (ConfigErrorKind, Seq<char>),
> {
    if field == "enable"@ {
        Ok(bool_text(c.enable))
    } else if field == "ssid"@ {
        Ok(c.ssid)
    } else if field == "password"@ {
        Ok(c.password)
    } else if field == "auth"@ {
        Ok(c.auth.name())
    } else if field == "identity"@ {
        Ok(c.identity)
    } else if field == "username"@ {
        Ok(c.username)
    } else {
        Err((ConfigErrorKind::InvalidField, field))
    }
}

fn read_enable(val: &str) -> (r: Option<bool>)
    ensures
        r == enable_word(val@),
{
    if same_text(val, "yes") || same_text(val, "y") || same_text(val, "true") {
        Some(true)
    } else if same_text(val, "no") || same_text(val, "n") || same_text(val, "false") {
        Some(false)
    } else {
        None
    }
}

fn read_auth(val: &str) -> (r: Option<WifiAuthMethod>)
    ensures
        r == auth_word(val@),
{
    if same_text(val, "WPA2_PERSONAL") || same_text(val, "Personal") || same_text(
        val,
        "personal",
    ) {
        Some(WifiAuthMethod::Personal)
    } else if same_text(val, "WPA2_ENTERPRISE") || same_text(val, "Enterprise") || same_text(
        val,
        "enterprise",
    ) {
        Some(WifiAuthMethod::Enterprise)
    } else {
        None
    }
}

impl WifiConfig {
    /// Sets the field named `field` to what `val` means for it.
    ///
    /// On an unknown field or a value that the field does not accept,
    /// nothing changes and the error says which of the two it was.
    pub fn update(&mut self, field: &str, val: &str) -> (r: Result<(), ConfigError>)
        ensures
            match r {
                Ok(()) => updated(old(self)@, field@, val@) == Ok::<
                    WifiSettings,
                    (ConfigErrorKind, Seq<char>),
                >(final(self)@),
                Err(e) => updated(old(self)@, field@, val@) == Err::<
                    WifiSettings,
                    (ConfigErrorKind, Seq<char>),
                >(e@) && final(self)@ == old(self)@,
            },
    {
        if same_text(field, "enable") {
            match read_enable(val) {
                Some(on) => {
                    self.enable = on;
                },
                None => {
                    return Err(
                        ConfigError { kind: ConfigErrorKind::InvalidEnable, subject: val.to_owned() },
                    );
                },
            }
        } else if same_text(field, "ssid") {
            self.ssid = val.to_owned();
        } else if same_text(field, "password") {
            self.password = val.to_owned();
        } else if same_text(field, "auth") {
            match read_auth(val) {
                Some(mode) => {
                    self.auth = mode;
                },
                None => {
                    return Err(
                        ConfigError { kind: ConfigErrorKind::InvalidAuth, subject: val.to_owned() },
                    );
                },
            }
        } else if same_text(field, "identity") {
            self.identity = val.to_owned();
        } else if same_text(field, "username") {
            self.username = val.to_owned();
        } else {
            return Err(
                ConfigError { kind: ConfigErrorKind::InvalidField, subject: field.to_owned() },
            );
        }
        Ok(())
    }

    /// The text shown for the field named `field`. Nothing changes.
    pub fn get(&mut self, field: &str) -> (r: Result<String, ConfigError>)
        ensures
            final(self)@ == old(self)@,
            match r {
                Ok(text) => shown(old(self)@, field@) == Ok::<
                    Seq<char>,
                    (ConfigErrorKind, Seq<char>),
                >(text@),
                Err(e) => shown(old(self)@, field@) == Err::<
                    Seq<char>,
                    (ConfigErrorKind, Seq<char>),
                >(e@),
            },
    {
        if same_text(field, "enable") {
            if self.enable {
                Ok("true".to_owned())
            } else {
                Ok("false".to_owned())
            }
        } else if same_text(field, "ssid") {
            Ok(self.ssid.clone())
        } else if same_text(field, "password") {
            Ok(self.password.clone())
        } else if same_text(field, "auth") {
            Ok(self.auth.to_string())
        } else if same_text(field, "identity") {
            Ok(self.identity.clone())
        } else if same_text(field, "username") {
            Ok(self.username.clone())
        } else {
            Err(ConfigError { kind: ConfigErrorKind::InvalidField, subject: field.to_owned() })
        }
    }
}

} // verus!
