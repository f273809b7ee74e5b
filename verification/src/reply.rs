//! What an entry point answers.

use vstd::prelude::*;

verus! {

/// The result code of an entry point.
#[allow(non_camel_case_types)]
#[derive(Clone, Copy, Debug, PartialEq, Eq, Structural)]
pub enum vm_exec_result_t {
    VM_EXEC_OK,
    VM_EXEC_ERROR,
}

/// The whole answer of an entry point: its result code and what it leaves behind.
#[derive(Debug)]
pub struct Reply<T> {
    /// The result code.
    pub result: vm_exec_result_t,
    /// The message to store as the last error. `None` leaves the last error as it is.
    pub last_error: Option<String>,
    /// What goes to the caller through the out-parameters. `None` leaves them as they are.
    pub written: Option<T>,
}

impl<T> Reply<T> {
    /// The entry point succeeds and writes `value`.
    pub open spec fn succeeds(self, value: T) -> bool {
        &&& self.result == vm_exec_result_t::VM_EXEC_OK
        &&& self.last_error is None
        &&& self.written == Some(value)
    }

    /// The entry point fails, stores `message` as the last error and writes nothing.
    pub open spec fn fails(self, message: Seq<char>) -> bool {
        &&& self.result == vm_exec_result_t::VM_EXEC_ERROR
        &&& self.last_error matches Some(stored)
        &&& stored@ == message
        &&& self.written is None
    }

    /// The entry point fails and changes nothing that its caller can see.
    pub open spec fn fails_silently(self) -> bool {
        &&& self.result == vm_exec_result_t::VM_EXEC_ERROR
        &&& self.last_error is None
        &&& self.written is None
    }

    /// The answer of an entry point that did its work.
    pub fn ok(value: T) -> (reply: Self)
        ensures
            reply.succeeds(value),
            reply.result == vm_exec_result_t::VM_EXEC_OK,
            reply.last_error is None,
            reply.written == Some(value),
    {
        Reply { result: vm_exec_result_t::VM_EXEC_OK, last_error: None, written: Some(value) }
    }

    /// The answer of an entry point that gives up with a message.
    pub fn error(message: String) -> (reply: Self)
        ensures
            reply.fails(message@),
            reply.result == vm_exec_result_t::VM_EXEC_ERROR,
            reply.last_error == Some(message),
            reply.written is None,
    {
        Reply {
            result: vm_exec_result_t::VM_EXEC_ERROR,
            last_error: Some(message),
            written: None,
        }
    }

    /// The answer to give when the work of an entry point may have panicked: what it
    /// answered, or a bare error where it panicked and answered nothing.
    pub fn after_unwind(answered: Option<Self>) -> (reply: Self)
        ensures
            answered matches Some(given) ==> reply == given,
            answered is None ==> reply.fails_silently(),
            answered is None ==> reply.result == vm_exec_result_t::VM_EXEC_ERROR
                && reply.last_error is None && reply.written is None,
    {
        match answered {
            Some(given) => given,
            None => Reply {
                result: vm_exec_result_t::VM_EXEC_ERROR,
                last_error: None,
                written: None,
            },
        }
    }
}

} // verus!
