//! The receiver of a method call.

use vstd::prelude::*;

verus! {

/// The receiver that a method handler is given: the engine's handle of the object,
/// and the identity of the class that the method was registered on.
///
/// Both are opaque words. A class identity of `0` stands for a class that has not
/// been resolved yet.
#[derive(Debug, Clone, Copy, PartialEq, Eq)]
pub struct Object {
    pub ptr: usize,
    pub class: usize,
}

impl Object {
    /// Pairs a receiver handle with a class identity.
    pub fn new(ptr: usize, class: usize) -> (object: Object)
        ensures
            object == (Object { ptr, class }),
    {
        Object { ptr, class }
    }

    /// The engine's handle of the receiver.
    pub fn as_ptr(&self) -> (ptr: usize)
        ensures
            ptr == self.ptr,
    {
        self.ptr
    }

    /// The identity of the class that the method belongs to.
    pub fn get_class(&self) -> (class: usize)
        ensures
            class == self.class,
    {
        self.class
    }
}

} // verus!
