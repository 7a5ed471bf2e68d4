//! The records of the engine's format, as plain values.

use crate::functions::create_zend_arg_info;
use vstd::prelude::*;

verus! {

/// The engine versions whose record formats are known here.
#[derive(Debug, Clone, Copy, PartialEq, Eq)]
pub enum PhpVersion {
    V7_0,
    V7_1,
    V7_2,
    V7_3,
    V7_4,
    V8_0,
}

/// What the name field of an argument-info cell carries.
///
/// In the engine's format the field is one word, and the place of a cell in the
/// array decides how it is read. Each reading is a variant here.
#[derive(Debug, PartialEq, Eq)]
pub enum ArgName {
    /// All bits zero.
    Null,
    /// In the header cell: how many arguments a call must pass.
    Count(usize),
    /// In the cell of a declared argument: its name, followed by a NUL.
    Text(String),
    /// In the sentinel cell: the identity of the callable that the record is for.
    Handler(usize),
}

/// The part of an argument-info cell whose fields depend on the engine version.
/// A word that holds an address is `0` for the null address.
#[derive(Debug, Clone, Copy, PartialEq, Eq)]
pub enum ArgConstraint {
    /// Version 8.0.
    Typed { type_ptr: usize, type_mask: u32, default_value: usize },
    /// Versions 7.2 to 7.4.
    Flagged { type_: usize, pass_by_reference: u8, is_variadic: u8 },
    /// Versions 7.0 and 7.1.
    Hinted {
        class_name: usize,
        type_hint: u8,
        allow_null: u8,
        pass_by_reference: u8,
        is_variadic: u8,
    },
}

/// One cell of the argument-info array of a record.
#[derive(Debug, PartialEq, Eq)]
pub struct ArgInfo {
    pub name: ArgName,
    pub constraint: ArgConstraint,
}

/// The version-dependent part of a cell that constrains no type: every field is
/// zero, but for the flag of an argument that is passed by reference, in the
/// versions whose cells have that flag.
pub open spec fn unconstrained(version: PhpVersion, pass_by_ref: bool) -> ArgConstraint {
    let flag: u8 = if pass_by_ref { 1 } else { 0 };
    match version {
        PhpVersion::V8_0 => ArgConstraint::Typed { type_ptr: 0, type_mask: 0, default_value: 0 },
        PhpVersion::V7_4 | PhpVersion::V7_3 | PhpVersion::V7_2 => ArgConstraint::Flagged {
            type_: 0,
            pass_by_reference: flag,
            is_variadic: 0,
        },
        PhpVersion::V7_1 | PhpVersion::V7_0 => ArgConstraint::Hinted {
            class_name: 0,
            type_hint: 0,
            allow_null: 0,
            pass_by_reference: flag,
            is_variadic: 0,
        },
    }
}

/// The cell that is all zero in the layout of `version`.
pub open spec fn zeroed_arg_info(version: PhpVersion) -> ArgInfo {
    ArgInfo { name: ArgName::Null, constraint: unconstrained(version, false) }
}

impl ArgInfo {
    /// The cell that is all zero in the layout of `version`.
    pub fn zeroed(version: PhpVersion) -> (info: ArgInfo)
        ensures
            info == zeroed_arg_info(version),
    {
        create_zend_arg_info(version, ArgName::Null, false)
    }
}

/// The entry points that a record can name. There is one:
/// [`invoke`](crate::functions::invoke).
#[derive(Debug, Clone, Copy, PartialEq, Eq)]
pub enum Handler {
    Invoke,
}

/// The record that the engine is given for one registration.
#[derive(Debug, PartialEq, Eq)]
pub struct FunctionEntry {
    /// The name of the function, followed by a NUL.
    pub fname: String,
    /// The entry point that the engine calls.
    pub handler: Option<Handler>,
    /// The header cell, one cell for each declared argument, a zero cell, and the
    /// sentinel cell.
    pub arg_info: Vec<ArgInfo>,
    /// The number of declared arguments.
    pub num_args: u32,
    pub flags: u32,
}

} // verus!
