//! Parameter metadata and the values exchanged with a plugin.

use vstd::prelude::*;

verus! {

/// One parameter value as the plugin reports it. The plugin interface speaks
/// IEEE-754 double precision; this core never computes with such values, it
/// only carries and caches them, so each one is held as its 64-bit pattern.
/// Two values are the same parameter value exactly when their bits agree.
#[derive(Clone, Copy, Debug, PartialEq, Eq, Structural)]
pub struct ParamValue {
    pub bits: u64,
}

impl ParamValue {
    /// Wraps the bit pattern of one plugin-side value.
    pub fn from_bits(bits: u64) -> (v: ParamValue)
        ensures
            v.bits == bits,
    {
        ParamValue { bits }
    }
}

/// One automatable parameter of a plugin instance: its stable id, flag bits
/// and display strings as the plugin declared them, its continuous range,
/// the declared default, and the last value the plugin confirmed.
///
/// The range and the values are opaque bit patterns here: clamping or
/// quantizing a requested value is the plugin's business, and the cache only
/// ever reflects what the plugin reported back.
pub struct MyParamInfoData {
    pub id: u32,
    pub flags: u32,
    pub name: String,
    pub module: String,
    pub min_value: ParamValue,
    pub max_value: ParamValue,
    pub default_value: ParamValue,
    pub value: ParamValue,
}

impl MyParamInfoData {
    /// A field-for-field copy; the returned descriptor equals this one.
    pub fn snapshot(&self) -> (r: MyParamInfoData)
        ensures
            r == *self,
    {
        MyParamInfoData {
            id: self.id,
            flags: self.flags,
            name: self.name.clone(),
            module: self.module.clone(),
            min_value: self.min_value,
            max_value: self.max_value,
            default_value: self.default_value,
            value: self.value,
        }
    }
}

/// One parameter change issued by the control path. Exactly one such edit is
/// built per `set_value` call, so no event backlog can accumulate however
/// often the control surface edits.
#[derive(Clone, Copy, Debug, PartialEq, Eq, Structural)]
pub struct ParamEdit {
    pub id: u32,
    pub new_value: ParamValue,
}

} // verus!
