pub mod native;

use vstd::prelude::*;
use crate::foreign::ForeignCall;
use crate::interface::{ComClass, ComInterface};
use crate::ole32::native::{CLSCTX, COINIT};
use crate::types::{CLSID, DWORD, HRESULT};

verus! {

/// The call that sets up the activation context of the calling thread, in
/// the apartment-threaded mode. It is due once per thread, before any object
/// is created. Its answer goes to `co_initialize_reply`.
pub fn co_initialize() -> (call: ForeignCall)
    ensures
        call == (ForeignCall::CoInitializeEx { mode: COINIT(DWORD(0x2)) }),
{
    ForeignCall::CoInitializeEx { mode: COINIT::APARTMENTTHREADED() }
}

/// Reads the answer to `co_initialize`: `S_OK` is success, any other status
/// is handed on as it is.
pub fn co_initialize_reply(status: HRESULT) -> (outcome: Result<(), HRESULT>)
    ensures
        outcome == if status.succeeded() {
            Ok::<(), HRESULT>(())
        } else {
            Err::<(), HRESULT>(status)
        },
{
    if status == HRESULT::S_OK() {
        Ok(())
    } else {
        Err(status)
    }
}

/// The call that gives the activation context of the calling thread up. One
/// is due for each successful `co_initialize`. It answers nothing.
pub fn co_uninitialize() -> (call: ForeignCall)
    ensures
        call == ForeignCall::CoUninitialize,
{
    ForeignCall::CoUninitialize
}

/// `call` creates an object of the class `clsid`, served in the caller's
/// process, and asks it for the interface `T`.
pub open spec fn is_creation_call<T: ComInterface>(call: ForeignCall, clsid: CLSID) -> bool {
    &&& call matches ForeignCall::CoCreateInstance { clsid: class, context, iid }
    &&& class == clsid
    &&& context == CLSCTX(DWORD(0x1))
    &&& iid@ == T::iid_bytes()
}

/// The call that creates an object of the class `clsid` and asks it for the
/// interface `T`. Its answer goes to `ComRef::<T>::from_reply`.
pub fn co_create_instance<T: ComInterface>(clsid: &CLSID) -> (call: ForeignCall)
    ensures
        is_creation_call::<T>(call, *clsid),
{
    ForeignCall::CoCreateInstance {
        clsid: clsid.clone(),
        context: CLSCTX::INPROC_SERVER(),
        iid: T::iid(),
    }
}

/// The call that creates an object of the class `C` and asks it for the
/// interface of that class. Its answer goes to
/// `ComRef::<C::ClassInterface>::from_reply`.
pub fn create_instance<C: ComClass>() -> (call: ForeignCall)
    ensures
        is_creation_call::<C::ClassInterface>(call, C::class_id()),
{
    let clsid = C::clsid();
    co_create_instance::<C::ClassInterface>(&clsid)
}

} // verus!
