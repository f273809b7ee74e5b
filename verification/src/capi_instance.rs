//! The instance object that the registry hands out.

use vstd::prelude::*;

verus! {

/// The opaque type that an instance handle claims to point to.
#[allow(non_camel_case_types)]
pub struct vm_exec_instance_t;

/// An instance as the registry keeps it. `content` is what the engine made; nothing here
/// looks inside.
pub struct CapiInstance<I> {
    pub content: I,
}

impl<I> CapiInstance<I> {
    /// Wraps what the engine made.
    pub fn new(content: I) -> (instance: Self)
        ensures
            instance.content == content,
    {
        CapiInstance { content }
    }
}

} // verus!
