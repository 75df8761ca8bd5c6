use vstd::prelude::*;
use crate::types::DWORD;

verus! {

/// How the activation context of a thread is to be set up.
#[derive(Clone, Debug, PartialEq, Eq, Copy, Structural)]
pub struct COINIT(pub DWORD);

#[allow(non_snake_case)]
impl COINIT {
    pub fn APARTMENTTHREADED() -> (flag: COINIT)
        ensures
            flag == COINIT(DWORD(0x2)),
    {
        COINIT(DWORD(0x2))
    }

    pub fn MULTITHREADED() -> (flag: COINIT)
        ensures
            flag == COINIT(DWORD(0x2)),
    {
        COINIT(DWORD(0x2))
    }

    pub fn DISABLE_OLE1DDE() -> (flag: COINIT)
        ensures
            flag == COINIT(DWORD(0x2)),
    {
        COINIT(DWORD(0x2))
    }

    pub fn SPEED_OVER_MEMORY() -> (flag: COINIT)
        ensures
            flag == COINIT(DWORD(0x2)),
    {
        COINIT(DWORD(0x2))
    }
}

/// Where the code that serves a created object is to run.
#[derive(Clone, Debug, PartialEq, Eq, Copy, Structural)]
pub struct CLSCTX(pub DWORD);

#[allow(non_snake_case)]
impl CLSCTX {
    pub fn INPROC_SERVER() -> (flag: CLSCTX)
        ensures
            flag == CLSCTX(DWORD(0x1)),
    {
        CLSCTX(DWORD(0x1))
    }

    pub fn INPROC_HANDLER() -> (flag: CLSCTX)
        ensures
            flag == CLSCTX(DWORD(0x2)),
    {
        CLSCTX(DWORD(0x2))
    }

    pub fn LOCAL_SERVER() -> (flag: CLSCTX)
        ensures
            flag == CLSCTX(DWORD(0x4)),
    {
        CLSCTX(DWORD(0x4))
    }

    pub fn INPROC_SERVER16() -> (flag: CLSCTX)
        ensures
            flag == CLSCTX(DWORD(0x8)),
    {
        CLSCTX(DWORD(0x8))
    }

    pub fn REMOTE_SERVER() -> (flag: CLSCTX)
        ensures
            flag == CLSCTX(DWORD(0x10)),
    {
        CLSCTX(DWORD(0x10))
    }

    pub fn INPROC_HANDLER16() -> (flag: CLSCTX)
        ensures
            flag == CLSCTX(DWORD(0x20)),
    {
        CLSCTX(DWORD(0x20))
    }

    pub fn RESERVED1() -> (flag: CLSCTX)
        ensures
            flag == CLSCTX(DWORD(0x40)),
    {
        CLSCTX(DWORD(0x40))
    }

    pub fn RESERVED2() -> (flag: CLSCTX)
        ensures
            flag == CLSCTX(DWORD(0x80)),
    {
        CLSCTX(DWORD(0x80))
    }

    pub fn RESERVED3() -> (flag: CLSCTX)
        ensures
            flag == CLSCTX(DWORD(0x100)),
    {
        CLSCTX(DWORD(0x100))
    }

    pub fn RESERVED4() -> (flag: CLSCTX)
        ensures
            flag == CLSCTX(DWORD(0x200)),
    {
        CLSCTX(DWORD(0x200))
    }

    pub fn NO_CODE_DOWNLOAD() -> (flag: CLSCTX)
        ensures
            flag == CLSCTX(DWORD(0x400)),
    {
        CLSCTX(DWORD(0x400))
    }

    pub fn RESERVED5() -> (flag: CLSCTX)
        ensures
            flag == CLSCTX(DWORD(0x800)),
    {
        CLSCTX(DWORD(0x800))
    }

    pub fn NO_CUSTOM_MARSHAL() -> (flag: CLSCTX)
        ensures
            flag == CLSCTX(DWORD(0x1000)),
    {
        CLSCTX(DWORD(0x1000))
    }

    pub fn ENABLE_CODE_DOWNLOAD() -> (flag: CLSCTX)
        ensures
            flag == CLSCTX(DWORD(0x2000)),
    {
        CLSCTX(DWORD(0x2000))
    }

    pub fn NO_FAILURE_LOG() -> (flag: CLSCTX)
        ensures
            flag == CLSCTX(DWORD(0x4000)),
    {
        CLSCTX(DWORD(0x4000))
    }

    pub fn DISABLE_AAA() -> (flag: CLSCTX)
        ensures
            flag == CLSCTX(DWORD(0x8000)),
    {
        CLSCTX(DWORD(0x8000))
    }

    pub fn ENABLE_AAA() -> (flag: CLSCTX)
        ensures
            flag == CLSCTX(DWORD(0x10000)),
    {
        CLSCTX(DWORD(0x10000))
    }

    pub fn FROM_DEFAULT_CONTEXT() -> (flag: CLSCTX)
        ensures
            flag == CLSCTX(DWORD(0x20000)),
    {
        CLSCTX(DWORD(0x20000))
    }

    pub fn ACTIVATE_32_BIT_SERVER() -> (flag: CLSCTX)
        ensures
            flag == CLSCTX(DWORD(0x40000)),
    {
        CLSCTX(DWORD(0x40000))
    }

    pub fn ACTIVATE_64_BIT_SERVER() -> (flag: CLSCTX)
        ensures
            flag == CLSCTX(DWORD(0x80000)),
    {
        CLSCTX(DWORD(0x80000))
    }

    pub fn ENABLE_CLOAKING() -> (flag: CLSCTX)
        ensures
            flag == CLSCTX(DWORD(0x100000)),
    {
        CLSCTX(DWORD(0x100000))
    }

    pub fn APPCONTAINER() -> (flag: CLSCTX)
        ensures
            flag == CLSCTX(DWORD(0x400000)),
    {
        CLSCTX(DWORD(0x400000))
    }

    pub fn ACTIVATE_AAA_AS_IU() -> (flag: CLSCTX)
        ensures
            flag == CLSCTX(DWORD(0x800000)),
    {
        CLSCTX(DWORD(0x800000))
    }

    pub fn PS_DLL() -> (flag: CLSCTX)
        ensures
            flag == CLSCTX(DWORD(0x80000000)),
    {
        CLSCTX(DWORD(0x80000000))
    }
}

} // verus!
