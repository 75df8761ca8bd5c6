use vstd::prelude::*;
use crate::comref::{acquired, ComRef};
use crate::foreign::{answers_query, references_gained, ForeignCall, ForeignReply};
use crate::interface::ComInterface;
use crate::types::HRESULT;

verus! {

/// A call together with what the foreign side answered to it.
pub struct Exchange {
    pub call: ForeignCall,
    pub reply: ForeignReply,
}

/// The references that the foreign side counts for the caller through the
/// pointer `object` after the exchanges of `log`, the first of them first.
pub open spec fn references_held(log: Seq<Exchange>, object: usize) -> int
    decreases log.len(),
{
    if log.len() == 0 {
        0
    } else {
        references_held(log.drop_last(), object) + references_gained(
            log.last().call,
            log.last().reply,
            object,
        )
    }
}

/// One use of the handles of this library, with the answer of the foreign
/// side where the use waits for one.
pub enum HandleOp {
    /// A creation or a query was answered with `status` and `ptr`, and the
    /// answer was read by `ComRef::from_reply`.
    Acquire { call: ForeignCall, status: HRESULT, ptr: usize },
    /// A handle on `object` was cloned, and the call was answered with `count`.
    Clone { object: usize, count: u32 },
    /// A handle on `object` was dropped, and the call was answered with `count`.
    Drop { object: usize, count: u32 },
}

impl HandleOp {
    /// The call of an `Acquire` is a creation or a query.
    pub open spec fn well_formed(self) -> bool {
        self matches HandleOp::Acquire { call, .. } ==> call is CoCreateInstance
            || call is QueryInterface
    }

    /// The call that the use sends and the answer that it got.
    pub open spec fn exchange(self) -> Exchange {
        match self {
            HandleOp::Acquire { call, status, ptr } => Exchange {
                call,
                reply: ForeignReply::Object { status, ptr },
            },
            HandleOp::Clone { object, count } => Exchange {
                call: ForeignCall::AddRef { object },
                reply: ForeignReply::Count { count },
            },
            HandleOp::Drop { object, count } => Exchange {
                call: ForeignCall::Release { object },
                reply: ForeignReply::Count { count },
            },
        }
    }

    /// By how much the use changes the number of handles on `object`:
    /// `from_reply` makes one where it returns `Ok`, `clone` makes one, `drop`
    /// takes one away.
    pub open spec fn handles_made(self, object: usize) -> int {
        match self {
            HandleOp::Acquire { status, ptr, .. } => if acquired(status, ptr) == Ok::<
                usize,
                HRESULT,
            >(object) {
                1
            } else {
                0
            },
            HandleOp::Clone { object: cloned, .. } => if cloned == object {
                1
            } else {
                0
            },
            HandleOp::Drop { object: dropped, .. } => if dropped == object {
                -1
            } else {
                0
            },
        }
    }
}

/// The number of handles on `object` after the uses of `ops`.
pub open spec fn handles_after(ops: Seq<HandleOp>, object: usize) -> int
    decreases ops.len(),
{
    if ops.len() == 0 {
        0
    } else {
        handles_after(ops.drop_last(), object) + ops.last().handles_made(object)
    }
}

/// The exchanges of a run of uses, in their order.
pub open spec fn exchanges_of(ops: Seq<HandleOp>) -> Seq<Exchange> {
    Seq::new(ops.len(), |i: int| ops[i].exchange())
}

/// No leak and no double release: after any run of uses, the references
/// that the foreign side counts through a pointer are as many as the handles
/// that stand on it. When the last handle is gone, the count is where it was
/// before the first came.
pub proof fn lemma_one_reference_per_handle(ops: Seq<HandleOp>, object: usize)
    requires
        forall|i: int| 0 <= i < ops.len() ==> (#[trigger] ops[i]).well_formed(),
    ensures
        references_held(exchanges_of(ops), object) == handles_after(ops, object),
    decreases ops.len(),
{
    if ops.len() > 0 {
        let before = ops.drop_last();
        lemma_one_reference_per_handle(before, object);
        assert(exchanges_of(ops).drop_last() =~= exchanges_of(before));
        assert(exchanges_of(ops).last() == ops.last().exchange());
        assert(ops.last().well_formed());
    }
}

/// Every clone and every drop in `ops` is of a handle that stands at that
/// point: a handle can be cloned or dropped only by the one who holds it.
pub open spec fn is_orderly(ops: Seq<HandleOp>) -> bool {
    forall|i: int|
        0 <= i < ops.len() ==> match #[trigger] ops[i] {
            HandleOp::Clone { object, .. } => handles_after(ops.take(i), object) >= 1,
            HandleOp::Drop { object, .. } => handles_after(ops.take(i), object) >= 1,
            HandleOp::Acquire { .. } => true,
        }
}

/// No reference is given back twice: at no point of an orderly run has the
/// foreign side been asked to give up more references than it had counted.
pub proof fn lemma_never_released_twice(ops: Seq<HandleOp>, object: usize, upto: int)
    requires
        forall|i: int| 0 <= i < ops.len() ==> (#[trigger] ops[i]).well_formed(),
        is_orderly(ops),
        0 <= upto <= ops.len(),
    ensures
        references_held(exchanges_of(ops.take(upto)), object) >= 0,
    decreases upto,
{
    let run = ops.take(upto);
    lemma_one_reference_per_handle(run, object);
    if upto > 0 {
        lemma_never_released_twice(ops, object, upto - 1);
        lemma_one_reference_per_handle(ops.take(upto - 1), object);
        assert(run.drop_last() =~= ops.take(upto - 1));
        assert(run.last() == ops[upto - 1]);
    }
}

/// A handle that is made by a successful creation, cloned, and dropped
/// together with its clone leaves the count of its object where it was
/// before the creation, whatever the counts were that the calls reported.
pub proof fn lemma_create_clone_drop_drop<T: ComInterface>(
    creation: ForeignCall,
    status: HRESULT,
    first: ComRef<T>,
    second: ComRef<T>,
    counts: (u32, u32, u32),
)
    requires
        creation is CoCreateInstance,
        acquired(status, first.addr()) == Ok::<usize, HRESULT>(first.addr()),
        second.addr() == first.addr(),
    ensures
        references_held(
            seq![
                Exchange {
                    call: creation,
                    reply: ForeignReply::Object { status, ptr: first.addr() },
                },
                Exchange { call: first.retain_call(), reply: ForeignReply::Count { count: counts.0 } },
                Exchange {
                    call: second.release_call(),
                    reply: ForeignReply::Count { count: counts.1 },
                },
                Exchange { call: first.release_call(), reply: ForeignReply::Count { count: counts.2 } },
            ],
            first.addr(),
        ) == 0,
{
    let object = first.addr();
    let ops = seq![
        HandleOp::Acquire { call: creation, status, ptr: object },
        HandleOp::Clone { object, count: counts.0 },
        HandleOp::Drop { object, count: counts.1 },
        HandleOp::Drop { object, count: counts.2 },
    ];
    let log = seq![
        Exchange { call: creation, reply: ForeignReply::Object { status, ptr: first.addr() } },
        Exchange { call: first.retain_call(), reply: ForeignReply::Count { count: counts.0 } },
        Exchange { call: second.release_call(), reply: ForeignReply::Count { count: counts.1 } },
        Exchange { call: first.release_call(), reply: ForeignReply::Count { count: counts.2 } },
    ];
    assert(exchanges_of(ops) =~= log);
    lemma_one_reference_per_handle(ops, object);
    reveal_with_fuel(handles_after, 5);
    assert(ops.drop_last().drop_last().drop_last().drop_last() =~= Seq::<HandleOp>::empty());
}

/// A query for the interface that a handle is bound to succeeds on an object
/// that keeps to the protocol, and gives a handle on that same interface.
pub proof fn lemma_query_for_own_interface<T: ComInterface>(
    handle: ComRef<T>,
    supported: Set<Seq<u8>>,
    call: ForeignCall,
    reply: ForeignReply,
)
    requires
        supported.contains(T::iid_bytes()),
        handle.is_query_call::<T>(call),
        answers_query(supported, call, reply),
    ensures
        reply matches ForeignReply::Object { status, ptr } && ptr != 0 && acquired(status, ptr)
            == Ok::<usize, HRESULT>(ptr),
        references_gained(call, reply, reply->ptr) == 1,
{
}

/// A query for an interface that the object does not support gives the
/// status of the foreign side as it is and no handle, and no reference is
/// counted for it through any pointer.
pub proof fn lemma_query_for_unsupported_interface<T: ComInterface, U: ComInterface>(
    handle: ComRef<T>,
    supported: Set<Seq<u8>>,
    call: ForeignCall,
    reply: ForeignReply,
)
    requires
        !supported.contains(U::iid_bytes()),
        handle.is_query_call::<U>(call),
        answers_query(supported, call, reply),
    ensures
        reply matches ForeignReply::Object { status, ptr } && !status.succeeded() && acquired(
            status,
            ptr,
        ) == Err::<usize, HRESULT>(status),
        forall|object: usize| references_gained(call, reply, object) == 0,
{
}

} // verus!
