use vstd::prelude::*;
use crate::ole32::native::{CLSCTX, COINIT};
use crate::types::{CLSID, HRESULT, IID};

verus! {

/// A call into the foreign side. This library decides which call is due and
/// what it is handed; whoever holds the foreign pointers performs it and hands
/// back what came of it.
#[derive(Debug)]
pub enum ForeignCall {
    /// Set up the activation context of the calling thread.
    CoInitializeEx { mode: COINIT },
    /// Give the activation context of the calling thread up.
    CoUninitialize,
    /// Create an object of class `clsid` and ask it for interface `iid`.
    CoCreateInstance { clsid: CLSID, context: CLSCTX, iid: IID },
    /// First slot of every table: ask the object at `object` for interface `iid`.
    QueryInterface { object: usize, iid: IID },
    /// Second slot of every table: count one more reference to the object at `object`.
    AddRef { object: usize },
    /// Third slot of every table: count one reference less to the object at `object`.
    Release { object: usize },
}

/// What the foreign side answered to a call.
#[derive(Clone, Copy, Debug, PartialEq, Eq, Structural)]
pub enum ForeignReply {
    /// Answer to `CoInitializeEx`.
    Status { status: HRESULT },
    /// Answer to `CoCreateInstance` and to `QueryInterface`: the status and
    /// what was written to the place for the pointer.
    Object { status: HRESULT, ptr: usize },
    /// Answer to `AddRef` and to `Release`: the count after the call.
    Count { count: u32 },
    /// `CoUninitialize` answers nothing.
    Nothing,
}

/// By how much a call and its answer change the number of references that
/// the foreign side counts for the caller through the pointer `object`. A
/// successful creation or query hands out a pointer with one reference
/// counted for it already; a failed one counts nothing.
pub open spec fn references_gained(call: ForeignCall, reply: ForeignReply, object: usize) -> int {
    match call {
        ForeignCall::CoCreateInstance { .. } | ForeignCall::QueryInterface { .. } => {
            if reply matches ForeignReply::Object { status, ptr } && status.succeeded() && ptr
                == object {
                1
            } else {
                0
            }
        },
        ForeignCall::AddRef { object: counted } => if counted == object {
            1
        } else {
            0
        },
        ForeignCall::Release { object: counted } => if counted == object {
            -1
        } else {
            0
        },
        _ => 0,
    }
}

/// How an object answers a query if it keeps to the protocol: with success
/// and a pointer for an interface that it supports, with a failure for any other.
pub open spec fn answers_query(supported: Set<Seq<u8>>, call: ForeignCall, reply: ForeignReply) -> bool {
    &&& call matches ForeignCall::QueryInterface { iid, .. }
    &&& reply matches ForeignReply::Object { status, ptr }
    &&& supported.contains(iid@) ==> status.succeeded() && ptr != 0
    &&& !supported.contains(iid@) ==> !status.succeeded()
}

} // verus!
