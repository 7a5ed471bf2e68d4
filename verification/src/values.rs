//! Script values, and how a native result becomes one.

use crate::sys::{ArgInfo, ArgName, FunctionEntry};
use vstd::prelude::*;
use vstd::slice::slice_subrange;

verus! {

/// A dynamically typed value of the script.
#[derive(Debug, PartialEq, Eq)]
pub enum Val {
    Null,
    Bool(bool),
    Long(i64),
    Str(String),
}

impl Val {
    /// The void value.
    pub fn null() -> (val: Val)
        ensures
            val == Val::Null,
    {
        Val::Null
    }

    /// Overwrites this value with what `value` stands for.
    pub fn set<T: SetVal>(&mut self, value: T)
        ensures
            *final(self) == value.as_val(),
    {
        value.set_val(self);
    }
}

impl Clone for Val {
    fn clone(&self) -> (val: Val)
        ensures
            val == *self,
    {
        match self {
            Val::Null => Val::Null,
            Val::Bool(b) => Val::Bool(*b),
            Val::Long(n) => Val::Long(*n),
            Val::Str(s) => Val::Str(s.clone()),
        }
    }
}

/// A native type that can be written into a value slot.
pub trait SetVal: Sized {
    /// The script value that `self` stands for.
    spec fn as_val(&self) -> Val;

    /// Writes `self` into `val`.
    fn set_val(self, val: &mut Val)
        ensures
            *final(val) == self.as_val(),
    ;
}

impl SetVal for () {
    open spec fn as_val(&self) -> Val {
        Val::Null
    }

    fn set_val(self, val: &mut Val) {
        *val = Val::Null;
    }
}

impl SetVal for bool {
    open spec fn as_val(&self) -> Val {
        Val::Bool(*self)
    }

    fn set_val(self, val: &mut Val) {
        *val = Val::Bool(self);
    }
}

impl SetVal for i64 {
    open spec fn as_val(&self) -> Val {
        Val::Long(*self)
    }

    fn set_val(self, val: &mut Val) {
        *val = Val::Long(self);
    }
}

impl SetVal for String {
    open spec fn as_val(&self) -> Val {
        Val::Str(*self)
    }

    fn set_val(self, val: &mut Val) {
        *val = Val::Str(self);
    }
}

impl SetVal for Val {
    open spec fn as_val(&self) -> Val {
        *self
    }

    fn set_val(self, val: &mut Val) {
        *val = self;
    }
}


/// What a call frame carries.
pub struct Frame {
    /// The number of arguments that the called function declares.
    pub num_args: u32,
    /// The number of arguments that a call of the function must pass.
    pub required_num_args: u32,
    /// The argument-info array of the called function, from the cell of its first
    /// declared argument on.
    pub arg_info: Seq<ArgInfo>,
    /// The engine's handle of the receiver.
    pub this: usize,
    /// The arguments that the call passes.
    pub arguments: Seq<Val>,
}

/// The frame that the engine pushes for a call of the function registered by
/// `function`, on the receiver `this` and with `arguments`.
///
/// The engine reads the number of required arguments from the header cell of the
/// record, and keeps the cells that follow it. There is no frame for a record
/// without a header cell, nor where a count does not fit the frame's fields.
pub open spec fn pushed_frame(function: FunctionEntry, this: usize, arguments: Seq<Val>) -> Option<
    Frame,
> {
    if function.arg_info@.len() >= 1 && arguments.len() <= u32::MAX {
        match function.arg_info@[0].name {
            ArgName::Count(count) => if count <= u32::MAX {
                Some(
                    Frame {
                        num_args: function.num_args,
                        required_num_args: count as u32,
                        arg_info: function.arg_info@.skip(1),
                        this,
                        arguments,
                    },
                )
            } else {
                None
            },
            _ => None,
        }
    } else {
        None
    }
}

/// The frame of one call: the record of the called function, the receiver, and
/// the arguments that were passed.
pub struct ExecuteData<'a> {
    function: &'a FunctionEntry,
    required_num_args: u32,
    this: usize,
    arguments: Vec<Val>,
}

impl<'a> View for ExecuteData<'a> {
    type V = Frame;

    closed spec fn view(&self) -> Frame {
        Frame {
            num_args: self.function.num_args,
            required_num_args: self.required_num_args,
            arg_info: self.function.arg_info@.skip(1),
            this: self.this,
            arguments: self.arguments@,
        }
    }
}

impl<'a> ExecuteData<'a> {
    #[verifier::type_invariant]
    spec fn well_formed(&self) -> bool {
        &&& self.function.arg_info@.len() >= 1
        &&& self.arguments@.len() <= u32::MAX
    }

    /// Pushes the frame of a call of the function registered by `function`, as the
    /// engine does.
    pub fn new(function: &'a FunctionEntry, this: usize, arguments: Vec<Val>) -> (frame: Option<
        ExecuteData<'a>,
    >)
        ensures
            frame is Some == pushed_frame(*function, this, arguments@) is Some,
            frame matches Some(frame) ==> Some(frame@) == pushed_frame(
                *function,
                this,
                arguments@,
            ),
    {
        if function.arg_info.len() == 0 || arguments.len() > u32::MAX as usize {
            return None;
        }
        match &function.arg_info[0].name {
            ArgName::Count(count) => {
                if *count > u32::MAX as usize {
                    None
                } else {
                    Some(
                        ExecuteData {
                            function,
                            required_num_args: *count as u32,
                            this,
                            arguments,
                        },
                    )
                }
            },
            _ => None,
        }
    }

    /// The number of arguments that the called function declares.
    pub fn common_num_args(&self) -> (count: u32)
        ensures
            count == self@.num_args,
    {
        self.function.num_args
    }

    /// The number of arguments that a call of the function must pass.
    pub fn common_required_num_args(&self) -> (count: u32)
        ensures
            count == self@.required_num_args,
    {
        self.required_num_args
    }

    /// The argument-info array of the called function, from the cell of its first
    /// declared argument on.
    pub fn common_arg_info(&self) -> (cells: &[ArgInfo])
        ensures
            cells@ == self@.arg_info,
    {
        proof {
            use_type_invariant(self);
        }
        let cells = self.function.arg_info.as_slice();
        let rest = slice_subrange(cells, 1, cells.len());
        assert(rest@ =~= self@.arg_info);
        rest
    }

    /// The number of arguments that the call passes.
    pub fn num_args(&self) -> (count: u32)
        ensures
            count == self@.arguments.len(),
    {
        proof {
            use_type_invariant(self);
        }
        self.arguments.len() as u32
    }

    /// The arguments that the call passes, for a handler to work on.
    pub fn get_parameters_array(&self) -> (arguments: Vec<Val>)
        ensures
            arguments@ == self@.arguments,
    {
        let mut arguments: Vec<Val> = Vec::new();
        let mut i: usize = 0;
        while i < self.arguments.len()
            invariant
                i <= self.arguments@.len(),
                arguments@ == self.arguments@.take(i as int),
            decreases self.arguments@.len() - i,
        {
            arguments.push(self.arguments[i].clone());
            assert(arguments@ =~= self.arguments@.take(i + 1));
            i = i + 1;
        }
        assert(arguments@ =~= self.arguments@);
        arguments
    }

    /// The engine's handle of the receiver.
    pub fn get_this(&self) -> (this: usize)
        ensures
            this == self@.this,
    {
        self.this
    }
}

} // verus!
