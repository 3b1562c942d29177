//! Opaque firmware handles.
//!
//! The firmware hands out identifiers for device-tree nodes (package handles)
//! and for open device sessions (instance handles).  A client never looks
//! inside one; it is a non-dereferenceable tagged word, and the all-zero word
//! is the null handle.

use vstd::prelude::*;

verus! {

/// Identifier of a device-tree node, as returned by the `finddevice` service.
#[derive(Clone, Copy, PartialEq, Eq, Structural, Debug)]
pub struct PHandle {
    /// The raw word the firmware returned; 0 is the null handle.
    pub addr: u64,
}

/// Identifier of an open device session, as returned by the `open` service or
/// found in the console property of `/chosen`.
#[derive(Clone, Copy, PartialEq, Eq, Structural, Debug)]
pub struct IHandle {
    /// The raw word the firmware returned; 0 is the null handle.
    pub addr: u64,
}

impl PHandle {
    /// The null package handle.
    pub fn null() -> (r: PHandle)
        ensures
            r.addr == 0,
    {
        PHandle { addr: 0 }
    }

    /// Whether this is the null handle.
    pub fn is_null(&self) -> (r: bool)
        ensures
            r == (self.addr == 0),
    {
        self.addr == 0
    }
}

impl IHandle {
    /// The null instance handle.
    pub fn null() -> (r: IHandle)
        ensures
            r.addr == 0,
    {
        IHandle { addr: 0 }
    }

    /// Whether this is the null handle.
    pub fn is_null(&self) -> (r: bool)
        ensures
            r == (self.addr == 0),
    {
        self.addr == 0
    }
}

} // verus!
