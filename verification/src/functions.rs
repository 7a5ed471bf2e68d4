//! Native handlers, their registrations, and the entry point that the engine calls
//! them through.

use crate::errors::{arity_message, arity_warning, Fault, Warning, E_WARNING};
use crate::objects::Object;
use crate::registry::Registry;
use crate::sys::{unconstrained, zeroed_arg_info, ArgConstraint, ArgInfo, ArgName, FunctionEntry, Handler, PhpVersion};
use crate::values::{ExecuteData, Frame, SetVal, Val};
use vstd::pervasive::unreached;
use vstd::prelude::*;
use vstd::string::StringExecFns;

verus! {

/// A native function that the script can call.
pub trait Function: Send + Sync {
    /// The argument lists that the handler may be called with: all of them, unless
    /// the handler says otherwise.
    open spec fn accepts(&self, arguments: Seq<Val>) -> bool {
        true
    }

    /// Whether one call with `arguments` may leave `ret` in the return slot: it may
    /// leave any value, unless the handler says more.
    open spec fn yields(&self, arguments: Seq<Val>, ret: Val) -> bool {
        true
    }

    /// Runs the handler on the arguments of one call and writes its result into
    /// `return_value`.
    fn call(&self, arguments: &mut [Val], return_value: &mut Val)
        requires
            self.accepts(old(arguments)@),
        ensures
            self.yields(old(arguments)@, *final(return_value)),
    ;
}

/// Every closure over the arguments is a [`Function`]; what it returns is written
/// into the return slot.
impl<F, R> Function for F where F: Fn(&mut [Val]) -> R + Send + Sync, R: SetVal {
    open spec fn accepts(&self, arguments: Seq<Val>) -> bool {
        forall|a: &mut [Val]| (*a)@ == arguments ==> #[trigger] call_requires(*self, (a,))
    }

    open spec fn yields(&self, arguments: Seq<Val>, ret: Val) -> bool {
        exists|a: &mut [Val], r: R|
            (*a)@ == arguments && #[trigger] call_ensures(*self, (a,), r) && r.as_val() == ret
    }

    fn call(&self, arguments: &mut [Val], return_value: &mut Val) {
        let r = self(arguments);
        r.set_val(return_value);
    }
}

/// A native method that the script can call on an object.
pub trait Method: Send + Sync {
    /// The receivers and argument lists that the handler may be called with: all
    /// of them, unless the handler says otherwise.
    open spec fn accepts(&self, this: Object, arguments: Seq<Val>) -> bool {
        true
    }

    /// Whether one call on `this` with `arguments` may leave `ret` in the return
    /// slot: it may leave any value, unless the handler says more.
    open spec fn yields(&self, this: Object, arguments: Seq<Val>, ret: Val) -> bool {
        true
    }

    /// Runs the handler on the receiver and the arguments of one call and writes its
    /// result into `return_value`.
    fn call(&self, this: &mut Object, arguments: &mut [Val], return_value: &mut Val)
        requires
            self.accepts(*old(this), old(arguments)@),
        ensures
            self.yields(*old(this), old(arguments)@, *final(return_value)),
    ;
}

/// Every closure over a receiver and the arguments is a [`Method`]; what it returns
/// is written into the return slot.
impl<F, R> Method for F where F: Fn(&mut Object, &mut [Val]) -> R + Send + Sync, R: SetVal {
    open spec fn accepts(&self, this: Object, arguments: Seq<Val>) -> bool {
        forall|t: &mut Object, a: &mut [Val]|
            *t == this && (*a)@ == arguments ==> #[trigger] call_requires(*self, (t, a))
    }

    open spec fn yields(&self, this: Object, arguments: Seq<Val>, ret: Val) -> bool {
        exists|t: &mut Object, a: &mut [Val], r: R|
            *t == this && (*a)@ == arguments && #[trigger] call_ensures(*self, (t, a), r)
                && r.as_val() == ret
    }

    fn call(&self, this: &mut Object, arguments: &mut [Val], return_value: &mut Val) {
        let r = self(this, arguments);
        r.set_val(return_value);
    }
}

/// What a registration dispatches to.
pub enum Callable {
    /// A free function.
    Function(Box<dyn Function>),
    /// A method, with the identity of the class it belongs to. The class is
    /// registered after the handler is written, so the identity is `0` at first
    /// and set later; a call reads the value that was set last.
    Method(Box<dyn Method>, usize),
}

impl Callable {
    /// Whether the handler may be called with `arguments`, on the receiver with the
    /// handle `this` where it is a method.
    pub open spec fn accepts(&self, this: usize, arguments: Seq<Val>) -> bool {
        match self {
            Callable::Function(f) => f.accepts(arguments),
            Callable::Method(m, class) => m.accepts(Object { ptr: this, class: *class }, arguments),
        }
    }

    /// Whether one call of the handler with `arguments` may leave `ret` in the
    /// return slot. A function is given the arguments alone. A method is also given
    /// the receiver with the handle `this` and with the class that was set last.
    pub open spec fn yields(&self, this: usize, arguments: Seq<Val>, ret: Val) -> bool {
        match self {
            Callable::Function(f) => f.yields(arguments, ret),
            Callable::Method(m, class) => m.yields(
                Object { ptr: this, class: *class },
                arguments,
                ret,
            ),
        }
    }

    /// The class that was set last, for a method.
    pub open spec fn class(&self) -> Option<usize> {
        match self {
            Callable::Function(_) => None,
            Callable::Method(_, class) => Some(*class),
        }
    }

    /// Both are the same handler; the class of a method may differ.
    pub open spec fn same_handler(&self, other: &Callable) -> bool {
        match (self, other) {
            (Callable::Function(f), Callable::Function(g)) => f == g,
            (Callable::Method(m, _), Callable::Method(n, _)) => m == n,
            _ => false,
        }
    }

    /// Whether this is a method.
    pub fn is_method(&self) -> (method: bool)
        ensures
            method == (self is Method),
    {
        match self {
            Callable::Method(_, _) => true,
            Callable::Function(_) => false,
        }
    }

    /// Sets the class of a method; a function stays as it is.
    pub fn set_class(&mut self, class: usize)
        ensures
            final(self).same_handler(old(self)),
            *old(self) is Function ==> *final(self) == *old(self),
            *old(self) is Method ==> final(self).class() == Some(class),
    {
        match self {
            Callable::Method(_, current) => {
                *current = class;
            },
            Callable::Function(_) => {},
        }
    }
}

/// One formal parameter of a registration.
pub struct Argument {
    /// The parameter's name, followed by a NUL.
    pub name: String,
    pub pass_by_ref: bool,
    pub required: bool,
}

impl Argument {
    /// A required parameter that is passed by value.
    pub fn by_val(name: &str) -> (argument: Argument)
        ensures
            argument.name@ == name@.push('\0'),
            !argument.pass_by_ref,
            argument.required,
    {
        Argument { name: terminated(name), pass_by_ref: false, required: true }
    }

    /// A required parameter that is passed by reference.
    pub fn by_ref(name: &str) -> (argument: Argument)
        ensures
            argument.name@ == name@.push('\0'),
            argument.pass_by_ref,
            argument.required,
    {
        Argument { name: terminated(name), pass_by_ref: true, required: true }
    }

    /// An optional parameter that is passed by value.
    pub fn by_val_optional(name: &str) -> (argument: Argument)
        ensures
            argument.name@ == name@.push('\0'),
            !argument.pass_by_ref,
            !argument.required,
    {
        Argument { name: terminated(name), pass_by_ref: false, required: false }
    }

    /// An optional parameter that is passed by reference.
    pub fn by_ref_optional(name: &str) -> (argument: Argument)
        ensures
            argument.name@ == name@.push('\0'),
            argument.pass_by_ref,
            !argument.required,
    {
        Argument { name: terminated(name), pass_by_ref: true, required: false }
    }
}

/// `name` with the NUL that the engine's strings end in.
fn terminated(name: &str) -> (owned: String)
    ensures
        owned@ == name@.push('\0'),
{
    proof {
        reveal_strlit("\0");
    }
    let mut owned = name.to_string();
    owned.append("\0");
    assert(owned@ =~= name@.push('\0'));
    owned
}

/// Builds the argument-info cell of `version` that carries `name` and constrains no
/// type.
pub fn create_zend_arg_info(version: PhpVersion, name: ArgName, pass_by_ref: bool) -> (info:
    ArgInfo)
    ensures
        info == (ArgInfo { name, constraint: unconstrained(version, pass_by_ref) }),
{
    let flag: u8 = if pass_by_ref { 1 } else { 0 };
    match version {
        PhpVersion::V8_0 => ArgInfo {
            name,
            constraint: ArgConstraint::Typed { type_ptr: 0, type_mask: 0, default_value: 0 },
        },
        PhpVersion::V7_4 | PhpVersion::V7_3 | PhpVersion::V7_2 => ArgInfo {
            name,
            constraint: ArgConstraint::Flagged {
                type_: 0,
                pass_by_reference: flag,
                is_variadic: 0,
            },
        },
        PhpVersion::V7_1 | PhpVersion::V7_0 => ArgInfo {
            name,
            constraint: ArgConstraint::Hinted {
                class_name: 0,
                type_hint: 0,
                allow_null: 0,
                pass_by_reference: flag,
                is_variadic: 0,
            },
        },
    }
}

/// The number of arguments that a call must pass: those that are declared as
/// required.
pub open spec fn required_count(arguments: Seq<Argument>) -> nat {
    arguments.filter(|argument: Argument| argument.required).len()
}

/// One registration: a name, the handler, and the declared parameters in order.
pub struct FunctionEntity {
    /// The name of the function, followed by a NUL.
    pub name: String,
    pub handler: Callable,
    pub arguments: Vec<Argument>,
}

impl FunctionEntity {
    /// A registration of `handler` under `name`, with the parameters `arguments`.
    pub fn new(name: &str, handler: Callable, arguments: Vec<Argument>) -> (entity: FunctionEntity)
        ensures
            entity.name@ == name@.push('\0'),
            entity.handler == handler,
            entity.arguments == arguments,
    {
        FunctionEntity { name: terminated(name), handler, arguments }
    }

    /// The argument-info array of the record of this registration: a header cell
    /// with the number of required arguments, one cell for each declared argument
    /// in order, a zero cell, and the sentinel cell that names the callable.
    pub open spec fn arg_info(&self, version: PhpVersion, handler: usize) -> Seq<ArgInfo> {
        let header = ArgInfo {
            name: ArgName::Count(required_count(self.arguments@) as usize),
            constraint: unconstrained(version, false),
        };
        let declared = Seq::new(
            self.arguments@.len(),
            |i: int|
                ArgInfo {
                    name: ArgName::Text(self.arguments@[i].name),
                    constraint: unconstrained(version, self.arguments@[i].pass_by_ref),
                },
        );
        let sentinel = ArgInfo {
            name: ArgName::Handler(handler),
            constraint: unconstrained(version, false),
        };
        seq![header] + declared + seq![zeroed_arg_info(version), sentinel]
    }

    /// The number of declared arguments that are required.
    pub fn required_num_args(&self) -> (count: usize)
        ensures
            count == required_count(self.arguments@),
    {
        let ghost required = |argument: Argument| argument.required;
        let mut count: usize = 0;
        let mut i: usize = 0;
        while i < self.arguments.len()
            invariant
                i <= self.arguments@.len(),
                count <= i,
                count == self.arguments@.take(i as int).filter(required).len(),
                required == (|argument: Argument| argument.required),
            decreases self.arguments@.len() - i,
        {
            proof {
                let done = self.arguments@.take(i as int);
                let next = self.arguments@.take(i + 1);
                assert(next.drop_last() =~= done);
                reveal_with_fuel(Seq::filter, 2);
            }
            if self.arguments[i].required {
                count = count + 1;
            }
            i = i + 1;
        }
        assert(self.arguments@.take(i as int) =~= self.arguments@);
        count
    }

    /// The record that the engine is given for this registration, in the format
    /// of `version`. `handler` is the identity of this registration's callable;
    /// the sentinel cell carries it.
    pub fn entry(&self, version: PhpVersion, handler: usize) -> (entry: FunctionEntry)
        requires
            self.arguments@.len() <= u32::MAX,
        ensures
            entry.fname == self.name,
            entry.handler == Some(Handler::Invoke),
            entry.arg_info@ == self.arg_info(version, handler),
            entry.num_args == self.arguments@.len(),
            entry.flags == 0,
    {
        let mut infos: Vec<ArgInfo> = Vec::new();
        let require_arg_count = self.required_num_args();
        infos.push(create_zend_arg_info(version, ArgName::Count(require_arg_count), false));
        let ghost header = infos@;
        let mut i: usize = 0;
        while i < self.arguments.len()
            invariant
                i <= self.arguments@.len(),
                infos@ == header + Seq::new(
                    i as nat,
                    |k: int|
                        ArgInfo {
                            name: ArgName::Text(self.arguments@[k].name),
                            constraint: unconstrained(version, self.arguments@[k].pass_by_ref),
                        },
                ),
            decreases self.arguments@.len() - i,
        {
            let argument = &self.arguments[i];
            infos.push(
                create_zend_arg_info(
                    version,
                    ArgName::Text(argument.name.clone()),
                    argument.pass_by_ref,
                ),
            );
            i = i + 1;
        }
        infos.push(ArgInfo::zeroed(version));
        let mut last_arg_info = ArgInfo::zeroed(version);
        last_arg_info.name = ArgName::Handler(handler);
        infos.push(last_arg_info);
        assert(infos@ =~= self.arg_info(version, handler));
        FunctionEntry {
            fname: self.name.clone(),
            handler: Some(Handler::Invoke),
            arg_info: infos,
            num_args: self.arguments.len() as u32,
            flags: 0,
        }
    }

    /// The handler can be called on every receiver, whatever class is set for it,
    /// with every argument list that holds at least the required number of
    /// arguments.
    pub open spec fn ready(&self) -> bool {
        forall|other: Callable, this: usize, arguments: Seq<Val>|
            other.same_handler(&self.handler) && arguments.len() >= required_count(
                self.arguments@,
            ) ==> #[trigger] other.accepts(this, arguments)
    }
}

/// The cells of a record stand where the engine looks for them: the header cell
/// first, with the number of required arguments; then the declared arguments in
/// their order; then a zero cell; and last the sentinel cell with the identity of
/// the callable.
pub proof fn lemma_arg_info_layout(entity: FunctionEntity, version: PhpVersion, handler: usize)
    ensures
        ({
            let cells = entity.arg_info(version, handler);
            let declared = entity.arguments@.len() as int;
            &&& cells.len() == declared + 3
            &&& cells[0].name == ArgName::Count(required_count(entity.arguments@) as usize)
            &&& required_count(entity.arguments@) <= declared
            &&& forall|i: int|
                0 <= i < declared ==> (#[trigger] cells[i + 1]) == (ArgInfo {
                    name: ArgName::Text(entity.arguments@[i].name),
                    constraint: unconstrained(version, entity.arguments@[i].pass_by_ref),
                })
            &&& cells[declared + 1] == zeroed_arg_info(version)
            &&& cells[declared + 2].name == ArgName::Handler(handler)
        }),
{
    entity.arguments@.lemma_filter_len(|argument: Argument| argument.required);
}

/// A function is given no receiver: what a call of it yields does not depend on
/// the receiver of the frame.
pub proof fn lemma_function_has_no_receiver(
    callable: Callable,
    this: usize,
    other: usize,
    arguments: Seq<Val>,
    ret: Val,
)
    requires
        callable is Function,
    ensures
        callable.yields(this, arguments, ret) == callable.yields(other, arguments, ret),
{
}

/// A method is given the receiver of the frame, with the class that was set last
/// for the method.
pub proof fn lemma_method_has_receiver_of_last_class(
    callable: Callable,
    this: usize,
    arguments: Seq<Val>,
    ret: Val,
)
    requires
        callable is Method,
        callable.yields(this, arguments, ret),
    ensures
        callable matches Callable::Method(m, class) && callable.class() == Some(class) && m.yields(
            Object { ptr: this, class },
            arguments,
            ret,
        ),
{
}

/// What one call through [`invoke`] leaves behind: `warning` as its result and
/// `ret` in the return slot.
///
/// Where the call passes fewer arguments than the registration requires, the
/// result is the warning that says so and the slot holds the void value.
/// Otherwise there is no warning, and the slot holds what one call of the handler
/// yields on all the arguments that were passed.
pub open spec fn invoked(registry: Registry, frame: Frame, warning: Option<Warning>, ret: Val) -> bool
    recommends
        registry.admits(frame),
{
    let entity = registry@[registry.target(frame).unwrap() as int];
    let required = required_count(entity.arguments@);
    if frame.arguments.len() < required {
        &&& warning matches Some(warning)
        &&& warning.level == E_WARNING
        &&& warning.message@ == arity_warning(required, frame.arguments.len())
        &&& ret == Val::Null
    } else {
        &&& warning is None
        &&& entity.handler.yields(frame.this, frame.arguments, ret)
    }
}

/// The entry point of every record: carries out one call of the script.
///
/// Finds the callable that the frame's sentinel cell names. Where the call passes
/// fewer arguments than are required, the handler is not called: the return slot
/// is set to the void value and the result is the warning for the engine to
/// report. Otherwise the handler is called once with all the arguments that were
/// passed, however many are declared, and writes the return slot; a method is
/// given the receiver of the frame with the class that was last set for it.
pub fn invoke(registry: &Registry, execute_data: &ExecuteData, return_value: &mut Val) -> (warning:
    Option<Warning>)
    requires
        registry.admits(execute_data@),
    ensures
        invoked(*registry, execute_data@, warning, *final(return_value)),
{
    let handler = match registry.handler(execute_data) {
        Some(handler) => handler,
        None => unreached(),
    };

    if execute_data.num_args() < execute_data.common_required_num_args() {
        let message = arity_message(
            execute_data.common_required_num_args(),
            execute_data.num_args(),
        );
        return_value.set(());
        return Some(Warning { level: E_WARNING, message });
    }
    let mut arguments = execute_data.get_parameters_array();
    proof {
        let entity = registry@[registry.target(execute_data@).unwrap() as int];
        assert(entity.ready());
        assert(handler.same_handler(&entity.handler));
        assert(handler.accepts(execute_data@.this, arguments@));
    }

    match handler {
        Callable::Function(f) => {
            f.call(arguments.as_mut_slice(), return_value);
        },
        Callable::Method(m, class) => {
            let mut this = Object::new(execute_data.get_this(), *class);
            m.call(&mut this, arguments.as_mut_slice(), return_value);
        },
    }
    None
}

/// The fault that keeps a frame from being dispatched through `registry`, if there
/// is one.
pub open spec fn fault(registry: Registry, frame: Frame) -> Option<Fault> {
    match registry.target(frame) {
        None => Some(Fault::HandlerIsNull),
        Some(id) => if frame.required_num_args == required_count(
            registry@[id as int].arguments@,
        ) {
            None
        } else {
            Some(Fault::RequiredCountMismatch)
        },
    }
}

/// Carries out one call of the script as [`invoke`] does, after testing that the
/// frame belongs to a registration of `registry`. Where it does not, the return
/// slot is left as it is and the result is the fault.
pub fn try_invoke(registry: &Registry, execute_data: &ExecuteData, return_value: &mut Val) -> (result:
    Result<Option<Warning>, Fault>)
    ensures
        match fault(*registry, execute_data@) {
            Some(fault) => result == Err::<Option<Warning>, Fault>(fault) && *final(return_value)
                == *old(return_value),
            None => result is Ok && invoked(
                *registry,
                execute_data@,
                result->Ok_0,
                *final(return_value),
            ),
        },
{
    let id = match registry.target_of(execute_data) {
        Some(id) => id,
        None => {
            return Err(Fault::HandlerIsNull);
        },
    };
    let entity = match registry.get(id) {
        Some(entity) => entity,
        None => unreached(),
    };
    if entity.required_num_args() != execute_data.common_required_num_args() as usize {
        return Err(Fault::RequiredCountMismatch);
    }
    Ok(invoke(registry, execute_data, return_value))
}

} // verus!
