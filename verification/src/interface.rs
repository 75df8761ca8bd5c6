use vstd::prelude::*;
use crate::foreign::ForeignCall;
use crate::guid::{guid_bytes, lemma_guid_bytes_are};
use crate::types::{CLSID, IID};

verus! {

/// A binding to one kind of foreign interface: its identifier and the shape
/// of its table of functions.
pub trait ComInterface {
    /// The shape of the table of functions.
    type VTable;

    /// The 16 bytes of the one identifier that the binding has. A binding
    /// that does not say which bytes they are leaves them unspecified.
    open spec fn iid_bytes() -> Seq<u8> {
        arbitrary()
    }

    /// The identifier of the interface: on every call the one of the binding.
    fn iid() -> (iid: IID)
        ensures
            iid@ == Self::iid_bytes(),
    ;

    /// The address of the table of functions of this instance. It is the
    /// address of a table of shape `VTable` only if the instance is a foreign
    /// object of this interface.
    fn vtable(&self) -> usize;
}

/// A binding to a class of foreign objects that can be created: its
/// identifier and the interface through which a new object is seen.
pub trait ComClass {
    /// The interface through which a new object of the class is seen.
    type ClassInterface: ComInterface;

    /// The one identifier that the binding has. A binding that does not say
    /// which it is leaves it unspecified.
    open spec fn class_id() -> CLSID {
        arbitrary()
    }

    /// The identifier of the class: on every call the one of the binding.
    fn clsid() -> (clsid: CLSID)
        ensures
            clsid == Self::class_id(),
    ;
}

/// The table of the base interface: the three functions with which the table
/// of every interface begins, each slot holding the address of its function.
#[allow(non_camel_case_types)]
#[derive(Clone, Copy, Debug, PartialEq, Eq, Structural)]
pub struct IUnknown_VTable {
    pub query_interface: usize,
    pub add_ref: usize,
    pub release: usize,
}

/// The base interface, which every foreign object offers. An instance holds
/// the address of its table and nothing else.
#[derive(Debug)]
pub struct IUnknown {
    pub vtable: usize,
}

impl IUnknown {
    /// The call of the first slot on the object at `this`: a query for the
    /// interface `iid`.
    pub fn query_interface(this: usize, iid: &IID) -> (call: ForeignCall)
        ensures
            call == (ForeignCall::QueryInterface { object: this, iid: *iid }),
    {
        ForeignCall::QueryInterface { object: this, iid: iid.clone() }
    }

    /// The call of the second slot on the object at `this`.
    pub fn add_ref(this: usize) -> (call: ForeignCall)
        ensures
            call == (ForeignCall::AddRef { object: this }),
    {
        ForeignCall::AddRef { object: this }
    }

    /// The call of the third slot on the object at `this`.
    pub fn release(this: usize) -> (call: ForeignCall)
        ensures
            call == (ForeignCall::Release { object: this }),
    {
        ForeignCall::Release { object: this }
    }
}

impl ComInterface for IUnknown {
    type VTable = IUnknown_VTable;

    open spec fn iid_bytes() -> Seq<u8> {
        guid_bytes("00000000-0000-0000-0000-000000000046"@)
    }

    fn iid() -> (iid: IID) {
        let data: [u8; 16] = [0, 0, 0, 0, 0, 0, 0, 0, 0, 0, 0, 0, 0, 0, 0, 0x46];
        proof {
            reveal_strlit("00000000-0000-0000-0000-000000000046");
            lemma_guid_bytes_are("00000000-0000-0000-0000-000000000046"@, data@);
        }
        IID::new(data)
    }

    fn vtable(&self) -> (address: usize)
        ensures
            address == self.vtable,
    {
        self.vtable
    }
}

/// The table of the dispatch interface: the base table, then four functions of its own.
#[allow(non_camel_case_types, non_snake_case)]
#[derive(Clone, Copy, Debug, PartialEq, Eq, Structural)]
pub struct IDispatch_VTable {
    pub __iunknown: IUnknown_VTable,
    pub GetTypeInfoCount: usize,
    pub GetTypeInfo: usize,
    pub GetIDsOfNames: usize,
    pub Invoke: usize,
}

/// The dispatch interface, through which an object is driven by name.
#[derive(Debug)]
pub struct IDispatch {
    pub vtable: usize,
}

impl ComInterface for IDispatch {
    type VTable = IDispatch_VTable;

    open spec fn iid_bytes() -> Seq<u8> {
        guid_bytes("00020400-0000-0000-c000-000000000046"@)
    }

    fn iid() -> (iid: IID) {
        let data: [u8; 16] = [0x00, 0x04, 0x02, 0x00, 0, 0, 0, 0, 0xC0, 0, 0, 0, 0, 0, 0, 0x46];
        proof {
            reveal_strlit("00020400-0000-0000-c000-000000000046");
            lemma_guid_bytes_are("00020400-0000-0000-c000-000000000046"@, data@);
        }
        IID::new(data)
    }

    fn vtable(&self) -> (address: usize)
        ensures
            address == self.vtable,
    {
        self.vtable
    }
}

} // verus!
