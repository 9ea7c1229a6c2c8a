//! Per-product settings as the artifact types read them.
use crate::ordered_map::OrderedMap;
use vstd::prelude::*;

verus! {

/// A configuration value. Artifact types read strings, booleans and mappings
/// with string keys; everything else is carried as `Other`.
pub enum SettingValue {
    Null,
    Bool(bool),
    String(String),
    Mapping(OrderedMap<SettingValue>),
    Other,
}

/// The string under `key` of a mapping, if there is one.
pub open spec fn string_entry(mapping: OrderedMap<SettingValue>, key: Seq<char>) -> Option<
    Seq<char>,
> {
    if mapping.has(key) {
        match mapping.value_of(key) {
            SettingValue::String(s) => Some(s@),
            _ => None,
        }
    } else {
        None
    }
}

/// The boolean under `key` of a mapping, if there is one.
pub open spec fn bool_entry(mapping: OrderedMap<SettingValue>, key: Seq<char>) -> Option<bool> {
    if mapping.has(key) {
        match mapping.value_of(key) {
            SettingValue::Bool(b) => Some(b),
            _ => None,
        }
    } else {
        None
    }
}

/// The string that a setting holds, if it is a string.
pub open spec fn setting_string(setting: Option<&SettingValue>) -> Option<Seq<char>> {
    match setting {
        Some(SettingValue::String(s)) => Some(s@),
        _ => None,
    }
}

impl SettingValue {
    /// A string setting.
    pub fn string(value: &str) -> (r: SettingValue)
        ensures
            r matches SettingValue::String(s) && s@ == value@,
    {
        SettingValue::String(String::from_str(value))
    }

    /// The string under `key`, where this value is a mapping that has one.
    pub fn get_string<'a>(mapping: &'a OrderedMap<SettingValue>, key: &str) -> (r: Option<&'a str>)
        ensures
            r is Some <==> string_entry(*mapping, key@) is Some,
            r is Some ==> r->0@ == string_entry(*mapping, key@)->0,
    {
        match mapping.get(key) {
            Some(SettingValue::String(v)) => Some(v.as_str()),
            _ => None,
        }
    }

    /// The boolean under `key`, where this value is a mapping that has one.
    pub fn get_bool(mapping: &OrderedMap<SettingValue>, key: &str) -> (r: Option<bool>)
        ensures
            r == bool_entry(*mapping, key@),
    {
        match mapping.get(key) {
            Some(SettingValue::Bool(v)) => Some(*v),
            _ => None,
        }
    }
}

} // verus!
