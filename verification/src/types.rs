use vstd::prelude::*;
use vstd::std_specs::cmp::PartialEqSpecImpl;

verus! {

/// A 32-bit unsigned value as the foreign interface passes it.
#[derive(Clone, Debug, PartialEq, Eq, Copy, Structural)]
pub struct DWORD(pub u32);

/// The status that a foreign call hands back. Only `S_OK` stands for success.
#[derive(Clone, Debug, PartialEq, Eq, Copy, Structural)]
pub struct HRESULT(pub u32);

impl HRESULT {
    /// The one status that stands for success.
    #[allow(non_snake_case)]
    pub fn S_OK() -> (status: HRESULT)
        ensures
            status == HRESULT(0),
    {
        HRESULT(0)
    }

    /// This status is `S_OK`.
    pub open spec fn succeeded(self) -> bool {
        self == HRESULT(0)
    }
}

/// The identifier of an interface: 16 bytes in the layout that the foreign
/// side expects.
#[derive(Debug, Eq)]
pub struct IID([u8; 16]);

impl View for IID {
    type V = Seq<u8>;

    closed spec fn view(&self) -> Seq<u8> {
        self.0@
    }
}

impl IID {
    pub fn new(data: [u8; 16]) -> (iid: IID)
        ensures
            iid@ == data@,
    {
        IID(data)
    }

    /// The 16 bytes, for handing them to the foreign side.
    pub fn as_bytes(&self) -> (data: &[u8; 16])
        ensures
            data@ == self@,
    {
        &self.0
    }
}

impl Clone for IID {
    fn clone(&self) -> (twin: IID)
        ensures
            twin == *self,
    {
        IID(self.0)
    }
}

impl PartialEq for IID {
    fn eq(&self, other: &IID) -> (same: bool) {
        let mut i: usize = 0;
        while i < 16
            invariant
                i <= 16,
                forall|k: int| 0 <= k < i ==> self.0[k] == other.0[k],
            decreases 16 - i,
        {
            if self.0[i] != other.0[i] {
                return false;
            }
            i += 1;
        }
        assert(self.0@ =~= other.0@);
        true
    }
}

impl PartialEqSpecImpl for IID {
    open spec fn obeys_eq_spec() -> bool {
        true
    }

    open spec fn eq_spec(&self, other: &IID) -> bool {
        self@ == other@
    }
}

/// A globally unique identifier in its four fields.
#[derive(Debug, Eq)]
pub struct GUID {
    pub data1: u32,
    pub data2: u16,
    pub data3: u16,
    pub data4: [u8; 8],
}

impl Clone for GUID {
    fn clone(&self) -> (twin: GUID)
        ensures
            twin == *self,
    {
        GUID { data1: self.data1, data2: self.data2, data3: self.data3, data4: self.data4 }
    }
}

impl PartialEq for GUID {
    fn eq(&self, other: &GUID) -> (same: bool) {
        if self.data1 != other.data1 || self.data2 != other.data2 || self.data3 != other.data3 {
            return false;
        }
        let mut i: usize = 0;
        while i < 8
            invariant
                i <= 8,
                forall|k: int| 0 <= k < i ==> self.data4[k] == other.data4[k],
            decreases 8 - i,
        {
            if self.data4[i] != other.data4[i] {
                return false;
            }
            i += 1;
        }
        assert(self.data4@ =~= other.data4@);
        true
    }
}

impl PartialEqSpecImpl for GUID {
    open spec fn obeys_eq_spec() -> bool {
        true
    }

    open spec fn eq_spec(&self, other: &GUID) -> bool {
        &&& self.data1 == other.data1
        &&& self.data2 == other.data2
        &&& self.data3 == other.data3
        &&& self.data4@ == other.data4@
    }
}

/// The identifier of a class of foreign objects that can be created. It has
/// the size of an `IID` and is a type of its own: the one cannot be handed
/// over where the other is asked for.
#[derive(Debug, Eq)]
pub struct CLSID(pub GUID);

impl CLSID {
    pub fn new(data1: u32, data2: u16, data3: u16, data4: [u8; 8]) -> (clsid: CLSID)
        ensures
            clsid.0.data1 == data1,
            clsid.0.data2 == data2,
            clsid.0.data3 == data3,
            clsid.0.data4 == data4,
    {
        CLSID(GUID { data1, data2, data3, data4 })
    }
}

impl Clone for CLSID {
    fn clone(&self) -> (twin: CLSID)
        ensures
            twin == *self,
    {
        CLSID(self.0.clone())
    }
}

impl PartialEq for CLSID {
    fn eq(&self, other: &CLSID) -> (same: bool) {
        self.0 == other.0
    }
}

impl PartialEqSpecImpl for CLSID {
    open spec fn obeys_eq_spec() -> bool {
        true
    }

    open spec fn eq_spec(&self, other: &CLSID) -> bool {
        &&& self.0.data1 == other.0.data1
        &&& self.0.data2 == other.0.data2
        &&& self.0.data3 == other.0.data3
        &&& self.0.data4@ == other.0.data4@
    }
}

} // verus!
