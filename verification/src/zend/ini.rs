//! The record that binds a configuration setting to the place that holds its value.

use crate::zend::api::ModuleGlobals;
use vstd::prelude::*;

verus! {

/// A hook that the engine calls when a setting is changed, named by its address.
#[derive(Debug, Clone, Copy, PartialEq, Eq)]
pub struct Mh {
    pub addr: usize,
}

/// The record that describes one configuration setting to the engine.
///
/// The three `mh_arg` fields are what the engine hands to the change hook. The
/// second is the place that the hook writes to; the first and the third are words
/// that are `0` here.
pub struct IniEntryDef<'a, T> {
    pub name: &'a str,
    pub on_modify: Option<Mh>,
    pub mh_arg1: usize,
    pub mh_arg2: &'a ModuleGlobals<T>,
    pub mh_arg3: usize,
    /// The default value of the setting.
    pub value: &'a str,
    /// The address of the hook that displays the setting.
    pub displayer: Option<usize>,
    /// The stages at which the script may change the setting, as the engine's bits.
    pub modifiable: i32,
    /// The length of the name in bytes.
    pub name_length: u32,
    /// The length of the default value in bytes.
    pub value_length: u32,
}

} // verus!
