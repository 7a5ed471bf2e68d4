//! The cell of an extension's global state, and the table of its records.

use crate::sys::FunctionEntry;
use crate::zend::ini::{IniEntryDef, Mh};
use vstd::prelude::*;
use vstd::string::StringSliceAdditionalSpecFns;

verus! {

/// The one place that holds the global state of an extension.
///
/// The engine is given the place itself and not a copy of the value. Nothing here
/// locks it: the engine gives each of its threads globals of its own, and whoever
/// shares a cell between threads relies on that.
pub struct ModuleGlobals<T> {
    inner: T,
}

impl<T> View for ModuleGlobals<T> {
    type V = T;

    closed spec fn view(&self) -> T {
        self.inner
    }
}

impl<T> ModuleGlobals<T> {
    /// A cell that holds `inner`.
    pub fn new(inner: T) -> (globals: Self)
        ensures
            globals@ == inner,
    {
        Self { inner }
    }

    /// The value in the cell.
    pub fn get(&self) -> (inner: &T)
        ensures
            *inner == self@,
    {
        &self.inner
    }

    /// The value in the cell, to change it in place.
    pub fn get_mut(&mut self) -> (inner: &mut T)
        ensures
            *inner == old(self)@,
            final(self)@ == *final(inner),
    {
        &mut self.inner
    }

    /// The record that binds the setting `name` to this cell, so that the engine
    /// writes a changed value into it. The lengths are counted in bytes and kept
    /// in 32 bits, as the record has them.
    pub fn create_ini_entry_def<'a>(
        &'a self,
        name: &'a str,
        default_value: &'a str,
        on_modify: Option<Mh>,
        modifiable: u32,
    ) -> (def: IniEntryDef<'a, T>)
        ensures
            def.name@ == name@,
            def.on_modify == on_modify,
            def.mh_arg1 == 0,
            def.mh_arg2@ == self@,
            def.mh_arg3 == 0,
            def.value@ == default_value@,
            def.displayer is None,
            def.modifiable == modifiable as i32,
            def.name_length == name.len() as u32,
            def.value_length == default_value.len() as u32,
            name.spec_bytes().len() <= u32::MAX ==> def.name_length == name.spec_bytes().len(),
            default_value.spec_bytes().len() <= u32::MAX ==> def.value_length
                == default_value.spec_bytes().len(),
    {
        IniEntryDef {
            name,
            on_modify,
            mh_arg1: 0,
            mh_arg2: self,
            mh_arg3: 0,
            value: default_value,
            displayer: None,
            modifiable: modifiable as i32,
            name_length: name.len() as u32,
            value_length: default_value.len() as u32,
        }
    }
}

/// The table of the records of an extension, as the engine is given it.
pub struct FunctionEntries<const N: usize> {
    inner: [FunctionEntry; N],
}

impl<const N: usize> View for FunctionEntries<N> {
    type V = Seq<FunctionEntry>;

    closed spec fn view(&self) -> Seq<FunctionEntry> {
        self.inner@
    }
}

impl<const N: usize> FunctionEntries<N> {
    /// A table of the records `inner`, in their order.
    pub fn new(inner: [FunctionEntry; N]) -> (entries: Self)
        ensures
            entries@ == inner@,
    {
        Self { inner }
    }

    /// The records of the table, from the first on.
    pub fn get(&self) -> (entries: &[FunctionEntry])
        ensures
            entries@ == self@,
            entries@.len() == N,
    {
        self.inner.as_slice()
    }
}

} // verus!
