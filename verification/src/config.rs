//! Resolution of the database connection settings from a key/value text map.
use crate::options::ConfigMap;
use crate::text::{
    decimal_text, lemma_decimal_text_reads_back, parse_u16, same_text, u16_of_text,
};
use vstd::prelude::*;
use vstd::string::StringExecFns;

verus! {

/// Why a settings map could not be resolved, as mathematical text.
pub enum ConfigFault {
    /// A required key is absent.
    Missing(Seq<char>),
    /// A key is present but its value cannot be read.
    Invalid(Seq<char>),
}

/// Why a settings map could not be resolved.
#[derive(Debug, PartialEq, Eq)]
pub enum ConfigError {
    /// The required key named here is absent.
    Missing(String),
    /// The key named here is present but its value cannot be read.
    Invalid(String),
}

impl View for ConfigError {
    type V = ConfigFault;

    open spec fn view(&self) -> ConfigFault {
        match self {
            ConfigError::Missing(key) => ConfigFault::Missing(key@),
            ConfigError::Invalid(key) => ConfigFault::Invalid(key@),
        }
    }
}

/// The key that a fault is about.
pub open spec fn fault_key(fault: ConfigFault) -> Seq<char> {
    match fault {
        ConfigFault::Missing(key) => key,
        ConfigFault::Invalid(key) => key,
    }
}

/// The text that reports a fault to the operator.
pub open spec fn fault_message(fault: ConfigFault) -> Seq<char> {
    match fault {
        ConfigFault::Missing(key) => key + " was not found in config"@,
        ConfigFault::Invalid(key) => key + " is not valid"@,
    }
}

impl ConfigError {
    /// The key that the error is about.
    pub fn key(&self) -> (key: &str)
        ensures
            key@ == fault_key(self@),
    {
        match self {
            ConfigError::Missing(key) => key.as_str(),
            ConfigError::Invalid(key) => key.as_str(),
        }
    }

    /// The text that reports the error to the operator.
    pub fn message(&self) -> (text: String)
        ensures
            text@ == fault_message(self@),
    {
        match self {
            ConfigError::Missing(key) => key.clone().concat(" was not found in config"),
            ConfigError::Invalid(key) => key.clone().concat(" is not valid"),
        }
    }
}

/// The connection settings as mathematical values.
pub struct Settings {
    pub host: Seq<char>,
    pub port: u16,
    pub name: Seq<char>,
    pub user: Seq<char>,
    pub pass: Seq<char>,
    pub debug: bool,
}

/// The settings needed to reach the database, and the debug flag. The text fields borrow
/// from the map they were resolved from.
#[derive(Debug, PartialEq, Eq)]
pub struct DbConfig<'a> {
    pub host: &'a str,
    pub port: u16,
    pub name: &'a str,
    pub user: &'a str,
    pub pass: &'a str,
    pub debug: bool,
}

impl<'a> View for DbConfig<'a> {
    type V = Settings;

    open spec fn view(&self) -> Settings {
        Settings {
            host: self.host@,
            port: self.port,
            name: self.name@,
            user: self.user@,
            pass: self.pass@,
            debug: self.debug,
        }
    }
}

/// The five keys that a settings map must have, in the order in which they are looked up.
pub open spec fn required_keys() -> Seq<Seq<char>> {
    seq!["db_host"@, "db_port"@, "db_name"@, "db_user"@, "db_pass"@]
}

/// The debug flag that a map asks for: set only by the value `true` under the key `debug`.
pub open spec fn debug_flag(options: Map<Seq<char>, Seq<char>>) -> bool {
    options.contains_key("debug"@) && options["debug"@] == "true"@
}

/// What a settings map resolves to. The keys are looked up in the order of
/// `required_keys`; the port is read as soon as its key was found.
pub open spec fn resolve(options: Map<Seq<char>, Seq<char>>) -> Result<Settings, ConfigFault> {
    if !options.contains_key("db_host"@) {
        Err(ConfigFault::Missing("db_host"@))
    } else if !options.contains_key("db_port"@) {
        Err(ConfigFault::Missing("db_port"@))
    } else if u16_of_text(options["db_port"@]) is None {
        Err(ConfigFault::Invalid("db_port"@))
    } else if !options.contains_key("db_name"@) {
        Err(ConfigFault::Missing("db_name"@))
    } else if !options.contains_key("db_user"@) {
        Err(ConfigFault::Missing("db_user"@))
    } else if !options.contains_key("db_pass"@) {
        Err(ConfigFault::Missing("db_pass"@))
    } else {
        Ok(
            Settings {
                host: options["db_host"@],
                port: u16_of_text(options["db_port"@])->0,
                name: options["db_name"@],
                user: options["db_user"@],
                pass: options["db_pass"@],
                debug: debug_flag(options),
            },
        )
    }
}

/// The value of a key that must be present.
pub fn unwrap_config<'a>(options: &'a ConfigMap, key: &str) -> (value: Result<&'a str, ConfigError>)
    ensures
        match value {
            Ok(v) => options@.contains_key(key@) && v@ == options@[key@],
            Err(e) => !options@.contains_key(key@) && e@ == ConfigFault::Missing(key@),
        },
{
    match options.get(key) {
        Some(val) => Ok(val.as_str()),
        None => Err(ConfigError::Missing(String::from_str(key))),
    }
}

/// Reads the optional debug flag: set only where the key `debug` has the value `true`.
pub fn debug_option(options: &ConfigMap) -> (debug: bool)
    ensures
        debug == debug_flag(options@),
{
    match options.get("debug") {
        Some(val) => same_text(val.as_str(), "true"),
        None => false,
    }
}

impl<'a> DbConfig<'a> {
    /// Resolves the settings from a key/value map.
    pub fn from(options: &'a ConfigMap) -> (config: Result<DbConfig<'a>, ConfigError>)
        ensures
            match config {
                Ok(c) => resolve(options@) == Ok::<Settings, ConfigFault>(c@),
                Err(e) => resolve(options@) == Err::<Settings, ConfigFault>(e@),
            },
    {
        let host = match unwrap_config(options, "db_host") {
            Ok(v) => v,
            Err(e) => return Err(e),
        };
        let port_text = match unwrap_config(options, "db_port") {
            Ok(v) => v,
            Err(e) => return Err(e),
        };
        let port = match parse_u16(port_text) {
            Some(port) => port,
            None => return Err(ConfigError::Invalid(String::from_str("db_port"))),
        };
        let name = match unwrap_config(options, "db_name") {
            Ok(v) => v,
            Err(e) => return Err(e),
        };
        let user = match unwrap_config(options, "db_user") {
            Ok(v) => v,
            Err(e) => return Err(e),
        };
        let pass = match unwrap_config(options, "db_pass") {
            Ok(v) => v,
            Err(e) => return Err(e),
        };
        let debug = debug_option(options);
        Ok(DbConfig { host, port, name, user, pass, debug })
    }

    /// Whether the database asks for authentication: only when both a user and a
    /// password are given.
    pub fn wants_auth(&self) -> (wanted: bool)
        ensures
            wanted == (self@.user.len() > 0 && self@.pass.len() > 0),
    {
        !self.user.is_empty() && !self.pass.is_empty()
    }
}

/// The map has each of the five required keys.
pub open spec fn has_required_keys(options: Map<Seq<char>, Seq<char>>) -> bool {
    forall|i: int| 0 <= i < required_keys().len() ==> options.contains_key(#[trigger] required_keys()[i])
}

/// A map that has the five required keys and a port that reads as an unsigned 16-bit
/// number resolves, and the settings hold the map's four texts and the number of the port.
pub proof fn lemma_valid_map_resolves(options: Map<Seq<char>, Seq<char>>)
    requires
        has_required_keys(options),
        u16_of_text(options["db_port"@]) is Some,
    ensures
        resolve(options) matches Ok(settings) && settings.host == options["db_host"@]
            && Some(settings.port) == u16_of_text(options["db_port"@]) && settings.name
            == options["db_name"@] && settings.user == options["db_user"@] && settings.pass
            == options["db_pass"@],
{
    let keys = required_keys();
    assert(options.contains_key(keys[0]));
    assert(options.contains_key(keys[1]));
    assert(options.contains_key(keys[2]));
    assert(options.contains_key(keys[3]));
    assert(options.contains_key(keys[4]));
}

/// A port written in decimal resolves to the number that was written.
pub proof fn lemma_written_port_resolves(options: Map<Seq<char>, Seq<char>>, port: u16)
    requires
        has_required_keys(options),
        options["db_port"@] == decimal_text(port as nat),
    ensures
        resolve(options) matches Ok(settings) && settings.port == port,
{
    lemma_decimal_text_reads_back(port);
    lemma_valid_map_resolves(options);
}

/// A map that lacks one of the five required keys does not resolve.
pub proof fn lemma_missing_key_fails(options: Map<Seq<char>, Seq<char>>, i: int)
    requires
        0 <= i < required_keys().len(),
        !options.contains_key(required_keys()[i]),
    ensures
        resolve(options) is Err,
{
}

/// The error names the first required key that is absent, provided the port could be read
/// where the absent key is looked up after it.
pub proof fn lemma_first_missing_key_is_named(options: Map<Seq<char>, Seq<char>>, i: int)
    requires
        0 <= i < required_keys().len(),
        !options.contains_key(required_keys()[i]),
        forall|j: int| 0 <= j < i ==> options.contains_key(#[trigger] required_keys()[j]),
        i >= 2 ==> u16_of_text(options["db_port"@]) is Some,
    ensures
        resolve(options) == Err::<Settings, ConfigFault>(ConfigFault::Missing(required_keys()[i])),
{
    let keys = required_keys();
    if i >= 1 {
        assert(options.contains_key(keys[0]));
    }
    if i >= 2 {
        assert(options.contains_key(keys[1]));
    }
    if i >= 3 {
        assert(options.contains_key(keys[2]));
    }
    if i >= 4 {
        assert(options.contains_key(keys[3]));
    }
}

/// A port that does not read as an unsigned 16-bit number is reported as invalid, once the
/// host was found.
pub proof fn lemma_unreadable_port_is_invalid(options: Map<Seq<char>, Seq<char>>)
    requires
        options.contains_key("db_host"@),
        options.contains_key("db_port"@),
        u16_of_text(options["db_port"@]) is None,
    ensures
        resolve(options) == Err::<Settings, ConfigFault>(ConfigFault::Invalid("db_port"@)),
{
}

} // verus!
