//! Reading the deep-link scheme out of the host's plugin configuration.

use vstd::prelude::*;
use vstd::string::*;

verus! {

/// A configuration value, as the host's configuration file holds it.
pub enum ConfigValue {
    Null,
    Bool(bool),
    /// A number, in its textual form.
    Number(String),
    Str(String),
    Array(Vec<ConfigValue>),
    /// The members of an object, each key once.
    Object(Vec<(String, ConfigValue)>),
}

/// Why no deep-link scheme could be read from the configuration.
#[derive(Debug, Clone, Copy, PartialEq, Eq, Structural)]
pub enum SchemeConfigError {
    /// No `deep-link` block.
    MissingDeepLink,
    /// No `mobile` key within `deep-link`.
    MissingMobile,
    /// `mobile` is not an array.
    MobileNotArray,
    /// `mobile` is an empty array.
    MobileEmpty,
    /// No `scheme` key in the first `mobile` entry.
    MissingScheme,
    /// `scheme` is not an array.
    SchemeNotArray,
    /// `scheme` is an empty array.
    SchemeEmpty,
    /// The first `scheme` entry is not a string.
    SchemeNotString,
}

/// The value under `key` among `entries`: the first entry with that key.
pub open spec fn member(entries: Seq<(String, ConfigValue)>, key: Seq<char>) -> Option<ConfigValue>
    decreases entries.len(),
{
    if entries.len() == 0 {
        None
    } else if entries[0].0@ == key {
        Some(entries[0].1)
    } else {
        member(entries.drop_first(), key)
    }
}

/// The member `key` of `v` where `v` is an object; `None` for any other value.
pub open spec fn value_member(v: ConfigValue, key: Seq<char>) -> Option<ConfigValue> {
    match v {
        ConfigValue::Object(entries) => member(entries@, key),
        _ => None,
    }
}

/// The deep-link scheme that `plugins` configures: the first string of the
/// `scheme` array in the first entry of the `mobile` array of the
/// `deep-link` block, or the first step at which that path breaks.
pub open spec fn configured_scheme(plugins: Seq<(String, ConfigValue)>) -> Result<
    Seq<char>,
    SchemeConfigError,
> {
    match member(plugins, "deep-link"@) {
        None => Err(SchemeConfigError::MissingDeepLink),
        Some(deep_link) => match value_member(deep_link, "mobile"@) {
            None => Err(SchemeConfigError::MissingMobile),
            Some(ConfigValue::Array(mobile)) => if mobile@.len() == 0 {
                Err(SchemeConfigError::MobileEmpty)
            } else {
                match value_member(mobile@[0], "scheme"@) {
                    None => Err(SchemeConfigError::MissingScheme),
                    Some(ConfigValue::Array(schemes)) => if schemes@.len() == 0 {
                        Err(SchemeConfigError::SchemeEmpty)
                    } else {
                        match schemes@[0] {
                            ConfigValue::Str(s) => Ok(s@),
                            _ => Err(SchemeConfigError::SchemeNotString),
                        }
                    },
                    Some(_) => Err(SchemeConfigError::SchemeNotArray),
                }
            },
            Some(_) => Err(SchemeConfigError::MobileNotArray),
        },
    }
}

/// The value under `key` among `entries`.
fn lookup<'a>(entries: &'a Vec<(String, ConfigValue)>, key: &str) -> (r: Option<&'a ConfigValue>)
    ensures
        match r {
            Some(v) => member(entries@, key@) == Some(*v),
            None => member(entries@, key@) is None,
        },
{
    let wanted = String::from_str(key);
    let mut i: usize = 0;
    assert(entries@.skip(0) =~= entries@);
    while i < entries.len()
        invariant
            wanted@ == key@,
            i <= entries.len(),
            member(entries@, key@) == member(entries@.skip(i as int), key@),
        decreases entries.len() - i,
    {
        assert(entries@.skip(i as int)[0] == entries@[i as int]);
        assert(entries@.skip(i as int).drop_first() =~= entries@.skip(i + 1));
        if entries[i].0 == wanted {
            return Some(&entries[i].1);
        }
        i = i + 1;
    }
    None
}

/// The member `key` of `v` where `v` is an object.
fn lookup_member<'a>(v: &'a ConfigValue, key: &str) -> (r: Option<&'a ConfigValue>)
    ensures
        match r {
            Some(m) => value_member(*v, key@) == Some(*m),
            None => value_member(*v, key@) is None,
        },
{
    match v {
        ConfigValue::Object(entries) => lookup(entries, key),
        _ => None,
    }
}

/// Reads the deep-link scheme out of the plugin configuration `plugins`,
/// which maps each plugin's name to its configuration.
pub fn extract_deep_link_scheme(plugins: &Vec<(String, ConfigValue)>) -> (r: Result<
    String,
    SchemeConfigError,
>)
    ensures
        match r {
            Ok(s) => configured_scheme(plugins@) == Ok::<Seq<char>, SchemeConfigError>(s@),
            Err(e) => configured_scheme(plugins@) == Err::<Seq<char>, SchemeConfigError>(e),
        },
{
    proof {
        reveal_strlit("deep-link");
        reveal_strlit("mobile");
        reveal_strlit("scheme");
    }
    let deep_link = match lookup(plugins, "deep-link") {
        Some(v) => v,
        None => return Err(SchemeConfigError::MissingDeepLink),
    };
    let mobile = match lookup_member(deep_link, "mobile") {
        Some(ConfigValue::Array(items)) => items,
        Some(_) => return Err(SchemeConfigError::MobileNotArray),
        None => return Err(SchemeConfigError::MissingMobile),
    };
    if mobile.len() == 0 {
        return Err(SchemeConfigError::MobileEmpty);
    }
    let schemes = match lookup_member(&mobile[0], "scheme") {
        Some(ConfigValue::Array(items)) => items,
        Some(_) => return Err(SchemeConfigError::SchemeNotArray),
        None => return Err(SchemeConfigError::MissingScheme),
    };
    if schemes.len() == 0 {
        return Err(SchemeConfigError::SchemeEmpty);
    }
    match &schemes[0] {
        ConfigValue::Str(s) => Ok(s.clone()),
        _ => Err(SchemeConfigError::SchemeNotString),
    }
}

} // verus!
