//! The registrations of an extension, and the way from a frame back to one of them.

use crate::functions::{lemma_arg_info_layout, required_count, Callable, FunctionEntity};
use crate::sys::{ArgName, FunctionEntry, Handler, PhpVersion};
use crate::values::{pushed_frame, ExecuteData, Frame, Val};
use vstd::prelude::*;

verus! {

/// The registrations of one extension, each named by its place.
///
/// A registration is never removed or moved: the engine keeps the records for as
/// long as the process lives, and the sentinel cell of a record names its
/// registration by the place that it was given here.
pub struct Registry {
    version: PhpVersion,
    entities: Vec<FunctionEntity>,
}

impl View for Registry {
    type V = Seq<FunctionEntity>;

    closed spec fn view(&self) -> Seq<FunctionEntity> {
        self.entities@
    }
}

impl Registry {
    /// Every registration is ready to be called.
    #[verifier::type_invariant]
    spec fn well_formed(&self) -> bool {
        forall|id: int| 0 <= id < self.entities@.len() ==> (#[trigger] self.entities@[id]).ready()
    }

    /// The engine version whose format the records of this registry have.
    pub closed spec fn php_version(&self) -> PhpVersion {
        self.version
    }

    /// The registration that the sentinel cell of a frame names: the cell stands
    /// one past the zero cell that follows the declared arguments. There is none
    /// where the array ends before that cell, or where the cell names no
    /// registration of this registry.
    pub open spec fn target(&self, frame: Frame) -> Option<usize> {
        if frame.num_args + 1 < frame.arg_info.len() {
            match frame.arg_info[frame.num_args + 1].name {
                ArgName::Handler(id) => if id < self@.len() {
                    Some(id)
                } else {
                    None
                },
                _ => None,
            }
        } else {
            None
        }
    }

    /// The frame belongs to a call of one of the registrations of this registry,
    /// and requires as many arguments as that registration declares as required.
    pub open spec fn admits(&self, frame: Frame) -> bool {
        self.target(frame) matches Some(id) && frame.required_num_args == required_count(
            self@[id as int].arguments@,
        )
    }

    /// A registry without registrations, for the record format of `version`.
    pub fn new(version: PhpVersion) -> (registry: Registry)
        ensures
            registry@ == Seq::<FunctionEntity>::empty(),
            registry.php_version() == version,
    {
        Registry { version, entities: Vec::new() }
    }

    /// The engine version whose format the records of this registry have.
    pub fn version(&self) -> (version: PhpVersion)
        ensures
            version == self.php_version(),
    {
        self.version
    }

    /// The number of registrations.
    pub fn len(&self) -> (len: usize)
        ensures
            len == self@.len(),
    {
        self.entities.len()
    }

    /// Adds a registration and returns its identity. The registrations made before
    /// keep theirs.
    pub fn register(&mut self, entity: FunctionEntity) -> (id: usize)
        requires
            entity.ready(),
        ensures
            id == old(self)@.len(),
            final(self)@ == old(self)@.push(entity),
            final(self).php_version() == old(self).php_version(),
    {
        proof {
            use_type_invariant(&*self);
        }
        let mut entities = self.take();
        let id = entities.len();
        entities.push(entity);
        *self = Registry { version: self.version, entities };
        id
    }

    /// Takes the registrations out, to change them and put them back.
    fn take(&mut self) -> (entities: Vec<FunctionEntity>)
        ensures
            entities@ == old(self).entities@,
            final(self).version == old(self).version,
            final(self).entities@.len() == 0,
    {
        let mut taken = Registry { version: self.version, entities: Vec::new() };
        core::mem::swap(self, &mut taken);
        taken.entities
    }

    /// The registration with the identity `id`. It is ready to be called, as every
    /// registration of a registry is.
    pub fn get(&self, id: usize) -> (entity: Option<&FunctionEntity>)
        ensures
            entity == if id < self@.len() {
                Some(&self@[id as int])
            } else {
                None
            },
            entity matches Some(entity) ==> entity.ready(),
    {
        proof {
            use_type_invariant(self);
        }
        if id < self.entities.len() {
            Some(&self.entities[id])
        } else {
            None
        }
    }

    /// The record that the engine is given for the registration `id`. There is
    /// none where `id` names no registration, or where the registration declares
    /// more arguments than a record can count.
    pub fn entry(&self, id: usize) -> (entry: Option<FunctionEntry>)
        ensures
            entry is Some <==> id < self@.len() && self@[id as int].arguments@.len() <= u32::MAX,
            entry matches Some(entry) ==> {
                &&& entry.fname == self@[id as int].name
                &&& entry.handler == Some(Handler::Invoke)
                &&& entry.arg_info@ == self@[id as int].arg_info(self.php_version(), id)
                &&& entry.num_args == self@[id as int].arguments@.len()
                &&& entry.flags == 0
            },
    {
        if id >= self.entities.len() {
            return None;
        }
        let entity = &self.entities[id];
        if entity.arguments.len() > u32::MAX as usize {
            return None;
        }
        Some(entity.entry(self.version, id))
    }

    /// Sets the class that the method registered as `id` belongs to. Nothing
    /// changes, and the result is `false`, where `id` names no registration or
    /// names a function.
    pub fn resolve_class(&mut self, id: usize, class: usize) -> (resolved: bool)
        ensures
            final(self).php_version() == old(self).php_version(),
            resolved <==> id < old(self)@.len() && old(self)@[id as int].handler is Method,
            !resolved ==> final(self)@ == old(self)@,
            resolved ==> final(self)@.len() == old(self)@.len(),
            resolved ==> forall|other: int|
                0 <= other < old(self)@.len() && other != id ==> final(self)@[other] == old(
                    self,
                )@[other],
            resolved ==> final(self)@[id as int].name == old(self)@[id as int].name,
            resolved ==> final(self)@[id as int].arguments == old(self)@[id as int].arguments,
            resolved ==> final(self)@[id as int].handler.same_handler(
                &old(self)@[id as int].handler,
            ),
            resolved ==> final(self)@[id as int].handler.class() == Some(class),
    {
        proof {
            use_type_invariant(&*self);
        }
        if id >= self.entities.len() {
            return false;
        }
        let ghost before = self.entities@;
        let mut entities = self.take();
        let mut entity = entities.remove(id);
        let resolved = entity.handler.is_method();
        entity.handler.set_class(class);
        assert(entity.ready()) by {
            assert(before[id as int].ready());
        }
        entities.insert(id, entity);
        assert(entities@ =~= before.update(id as int, entity));
        assert(!resolved ==> entity == before[id as int]);
        *self = Registry { version: self.version, entities };
        resolved
    }

    /// The identity of the registration that the sentinel cell of a frame names.
    pub fn target_of(&self, execute_data: &ExecuteData) -> (id: Option<usize>)
        ensures
            id == self.target(execute_data@),
    {
        let num_args = execute_data.common_num_args() as usize;
        let arg_info = execute_data.common_arg_info();
        if arg_info.len() < 2 || num_args > arg_info.len() - 2 {
            return None;
        }
        match &arg_info[num_args + 1].name {
            ArgName::Handler(id) => if *id < self.entities.len() {
                Some(*id)
            } else {
                None
            },
            _ => None,
        }
    }

    /// The callable that the sentinel cell of a frame names. Its registration is
    /// ready to be called.
    pub fn handler(&self, execute_data: &ExecuteData) -> (handler: Option<&Callable>)
        ensures
            handler == match self.target(execute_data@) {
                Some(id) => Some(&self@[id as int].handler),
                None => None,
            },
            self.target(execute_data@) matches Some(id) ==> self@[id as int].ready(),
    {
        proof {
            use_type_invariant(self);
        }
        match self.target_of(execute_data) {
            Some(id) => Some(&self.entities[id].handler),
            None => None,
        }
    }
}

/// A record leads back to its registration: in the frame that the engine pushes
/// for a call through the record of the registration `id`, the sentinel cell names
/// `id`, and the frame requires as many arguments as the registration does.
pub proof fn lemma_record_round_trip(
    registry: Registry,
    id: usize,
    entry: FunctionEntry,
    this: usize,
    arguments: Seq<Val>,
)
    requires
        id < registry@.len(),
        registry@[id as int].arguments@.len() <= u32::MAX,
        entry.arg_info@ == registry@[id as int].arg_info(registry.php_version(), id),
        entry.num_args == registry@[id as int].arguments@.len(),
        arguments.len() <= u32::MAX,
    ensures
        pushed_frame(entry, this, arguments) matches Some(frame) && registry.target(frame) == Some(
            id,
        ) && registry.admits(frame) && frame.arguments == arguments && frame.this == this,
{
    lemma_arg_info_layout(registry@[id as int], registry.php_version(), id);
}

/// A record stays good while the registry changes: where the registrations that a
/// registry held are still in their places, a frame leads to the registration that
/// it led to before.
pub proof fn lemma_records_outlive_changes(before: Registry, after: Registry, frame: Frame)
    requires
        before.target(frame) is Some,
        before@.len() <= after@.len(),
    ensures
        after.target(frame) == before.target(frame),
{
}

} // verus!
