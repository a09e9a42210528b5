//! The trampoline registry: one set-once slot per callback interface.
//!
//! A trampoline is the single function through which every invocation of one
//! callback interface reaches the foreign runtime. Its pointer is stored as a
//! pointer-sized integer so that, at the FFI layer, it can be published with
//! a single atomic store; zero marks the empty slot, and a function pointer
//! is never null, so no callback collides with the sentinel.

use vstd::prelude::*;

verus! {

/// The selector reserved for releasing a handle: the guest drops its strong
/// reference to the object and returns an empty buffer.
pub const IDX_CALLBACK_FREE: u32 = 0;

/// The behaviour of a foreign callback: the single entry through which every
/// invocation of one interface reaches the foreign runtime.
///
/// Across the FFI the callback is a bare function pointer with this shape;
/// verified code cannot call through an integer, so callers receive the
/// callee alongside the registry slot that published its pointer. The guest
/// side of this crate implements the trait with its dispatcher.
pub trait ForeignCallback {
    /// What the callback keeps intact from one invocation to the next.
    spec fn inv(&self) -> bool;

    /// Routes one invocation to the guest object named by `handle`: `method`
    /// selects the method, `args` carries the encoded arguments, and the
    /// returned buffer carries the encoded outcome.
    fn invoke(&mut self, handle: u64, method: u32, args: Vec<u8>) -> (resp: Vec<u8>)
        requires
            old(self).inv(),
        ensures
            final(self).inv(),
    ;
}

/// Holds the foreign callback registered for one interface.
///
/// The slot starts empty and is written at most once; writing it twice is a
/// programming bug, ruled out by the precondition of
/// [`ForeignCallbackInternals::set_callback`]. Reading an unwritten slot is
/// observable: [`ForeignCallbackInternals::get_callback`] returns `None`.
pub struct ForeignCallbackInternals {
    callback_ptr: usize,
}

/// The state change performed by a successful registration: the slot was
/// empty and now holds the (nonzero) callback.
pub open spec fn registration(pre: Option<usize>, post: Option<usize>, callback: usize) -> bool {
    &&& pre is None
    &&& callback != 0
    &&& post == Some(callback)
}

impl ForeignCallbackInternals {
    /// The registered callback, if any.
    pub closed spec fn callback(&self) -> Option<usize> {
        if self.callback_ptr == 0 {
            None
        } else {
            Some(self.callback_ptr)
        }
    }

    /// An empty slot: no callback registered yet.
    pub fn new() -> (slot: Self)
        ensures
            slot.callback() is None,
    {
        ForeignCallbackInternals { callback_ptr: 0 }
    }

    /// Installs the callback into the empty slot.
    ///
    /// A function pointer is never null, so a caller always has a nonzero
    /// value to pass. Registering a second time is a programming bug on the
    /// foreign side; the precondition rules it out.
    pub fn set_callback(&mut self, callback: usize)
        requires
            callback != 0,
            old(self).callback() is None,
        ensures
            final(self).callback() == Some(callback),
            registration(old(self).callback(), final(self).callback(), callback),
    {
        self.callback_ptr = callback;
    }

    /// The registered callback, or `None` if initialization has not happened.
    pub fn get_callback(&self) -> (callback: Option<usize>)
        ensures
            callback == self.callback(),
    {
        if self.callback_ptr == 0 {
            None
        } else {
            Some(self.callback_ptr)
        }
    }
}

/// Law: registration succeeds exactly once per slot. Once one registration
/// has happened, no second registration is possible from the resulting state.
pub proof fn lemma_single_registration(
    s0: Option<usize>,
    s1: Option<usize>,
    s2: Option<usize>,
    c1: usize,
    c2: usize,
)
    requires
        registration(s0, s1, c1),
    ensures
        !registration(s1, s2, c2),
{
}

} // verus!
