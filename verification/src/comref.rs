use vstd::prelude::*;
use std::marker::PhantomData;
use crate::foreign::ForeignCall;
use crate::interface::{ComInterface, IUnknown};
use crate::types::HRESULT;

verus! {

/// What an answer of a status and a pointer stands for: the address of an
/// object that is now owned if the status is `S_OK`, else the status as the
/// foreign side gave it.
pub open spec fn acquired(status: HRESULT, ptr: usize) -> Result<usize, HRESULT> {
    if status.succeeded() {
        Ok(ptr)
    } else {
        Err(status)
    }
}

/// A handle on a foreign object seen through the interface `T`. Each handle
/// stands for one reference that the foreign side counts: a handle comes
/// about with a reference that is counted already or with a call of `AddRef`,
/// and it goes with a call of `Release`.
pub struct ComRef<T: ComInterface> {
    ptr: usize,
    interface: PhantomData<T>,
}

impl<T: ComInterface> ComRef<T> {
    /// A handle never holds the null pointer.
    #[verifier::type_invariant]
    spec fn is_bound(self) -> bool {
        self.ptr != 0
    }

    /// The address of the foreign object.
    pub closed spec fn addr(self) -> usize {
        self.ptr
    }

    /// The call that counts one more reference for this handle's object.
    pub open spec fn retain_call(self) -> ForeignCall {
        ForeignCall::AddRef { object: self.addr() }
    }

    /// The call that gives the reference of this handle back.
    pub open spec fn release_call(self) -> ForeignCall {
        ForeignCall::Release { object: self.addr() }
    }

    /// `call` asks this handle's object for the interface `U`.
    pub open spec fn is_query_call<U: ComInterface>(self, call: ForeignCall) -> bool {
        &&& call matches ForeignCall::QueryInterface { object, iid }
        &&& object == self.addr()
        &&& iid@ == U::iid_bytes()
    }

    /// Takes over a pointer whose reference the caller owns already. No
    /// reference is counted for it anew.
    pub fn new(ptr: usize) -> (handle: ComRef<T>)
        requires
            ptr != 0,
        ensures
            handle.addr() == ptr,
    {
        ComRef { ptr, interface: PhantomData }
    }

    /// The address of the foreign object, for the one who performs the calls.
    pub fn as_ptr(&self) -> (ptr: usize)
        ensures
            ptr == self.addr(),
            ptr != 0,
    {
        proof {
            use_type_invariant(self);
        }
        self.ptr
    }

    /// The call that asks the object for the interface `U`. What the foreign
    /// side answers to it goes to `ComRef::<U>::from_reply`.
    pub fn query_interface<U: ComInterface>(&self) -> (call: ForeignCall)
        ensures
            self.is_query_call::<U>(call),
    {
        let wanted = U::iid();
        IUnknown::query_interface(self.as_ptr(), &wanted)
    }

    /// Reads the answer to a creation or to a query for the interface `T`.
    /// On `S_OK` the pointer comes with a reference counted for the caller,
    /// and the new handle owns it. Any other status is handed on as it is,
    /// and there is no handle.
    pub fn from_reply(status: HRESULT, ptr: usize) -> (outcome: Result<ComRef<T>, HRESULT>)
        requires
            status.succeeded() ==> ptr != 0,
        ensures
            match acquired(status, ptr) {
                Ok(address) => outcome matches Ok(handle) && handle.addr() == address,
                Err(failure) => outcome matches Err(given) && given == failure,
            },
    {
        if status == HRESULT::S_OK() {
            Ok(ComRef::new(ptr))
        } else {
            Err(status)
        }
    }

    /// A second handle on the same object, and the call that counts the
    /// reference for it.
    pub fn clone(&self) -> (made: (ComRef<T>, ForeignCall))
        ensures
            made.0.addr() == self.addr(),
            made.1 == self.retain_call(),
    {
        let ptr = self.as_ptr();
        (ComRef::new(ptr), IUnknown::add_ref(ptr))
    }

    /// Gives the handle up. The call that is handed back returns its reference.
    pub fn drop(self) -> (call: ForeignCall)
        ensures
            call == self.release_call(),
    {
        IUnknown::release(self.as_ptr())
    }
}

} // verus!
