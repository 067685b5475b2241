//! The two native address kinds.
//!
//! A bare address is a plain machine word; 0 is the null address. It comes in
//! a mutable and an immutable flavour, matching the two native pointer kinds,
//! and carries no cross-thread capability at all: promoting a bare address
//! into any wrapper kind is always capability-widening and therefore always
//! takes the caller's explicit assertion (see the promotion traits).
//!
//! A bare address may be built and copied freely: making or duplicating an
//! address asserts nothing, only access through it would.

use vstd::prelude::*;

use crate::hex::hex_string;
use crate::hex::ptr_text;

verus! {

/// A bare address of read-only data: the model of a native const pointer.
#[derive(Clone, Copy, PartialEq, Eq, Structural, Debug, Hash)]
pub struct ConstAddr {
    /// The address as a plain machine word; 0 is the null address.
    pub addr: usize,
}

impl View for ConstAddr {
    type V = usize;

    open spec fn view(&self) -> usize {
        self.addr
    }
}

impl ConstAddr {
    /// The address `a`, as read-only data. Wrapping a number as an address
    /// asserts nothing about it.
    pub open spec fn spec_new(a: usize) -> Self {
        ConstAddr { addr: a }
    }

    /// The address `a`, as read-only data. Wrapping a number as an address
    /// asserts nothing about it.
    #[verifier::when_used_as_spec(spec_new)]
    pub fn new(a: usize) -> (r: Self)
        ensures
            r == Self::spec_new(a),
    {
        ConstAddr { addr: a }
    }

    /// The null address.
    pub open spec fn spec_null() -> Self {
        ConstAddr { addr: 0 }
    }

    /// The null address.
    #[verifier::when_used_as_spec(spec_null)]
    pub fn null() -> (r: Self)
        ensures
            r == Self::spec_null(),
    {
        ConstAddr { addr: 0 }
    }

    /// Whether this is the null address.
    pub fn is_null(&self) -> (r: bool)
        ensures
            r == (self@ == 0),
    {
        self.addr == 0
    }

    /// Renders the address exactly as a native pointer formats.
    pub fn addr_string(&self) -> (s: String)
        ensures
            s@ == ptr_text(self@ as nat),
    {
        hex_string(self.addr)
    }
}

/// A bare address of writable data: the model of a native mutable pointer.
#[derive(Clone, Copy, PartialEq, Eq, Structural, Debug, Hash)]
pub struct MutAddr {
    /// The address as a plain machine word; 0 is the null address.
    pub addr: usize,
}

impl View for MutAddr {
    type V = usize;

    open spec fn view(&self) -> usize {
        self.addr
    }
}

impl MutAddr {
    /// The address `a`, as writable data. Wrapping a number as an address
    /// asserts nothing about it.
    pub open spec fn spec_new(a: usize) -> Self {
        MutAddr { addr: a }
    }

    /// The address `a`, as writable data. Wrapping a number as an address
    /// asserts nothing about it.
    #[verifier::when_used_as_spec(spec_new)]
    pub fn new(a: usize) -> (r: Self)
        ensures
            r == Self::spec_new(a),
    {
        MutAddr { addr: a }
    }

    /// The null address.
    pub open spec fn spec_null() -> Self {
        MutAddr { addr: 0 }
    }

    /// The null address.
    #[verifier::when_used_as_spec(spec_null)]
    pub fn null() -> (r: Self)
        ensures
            r == Self::spec_null(),
    {
        MutAddr { addr: 0 }
    }

    /// Whether this is the null address.
    pub fn is_null(&self) -> (r: bool)
        ensures
            r == (self@ == 0),
    {
        self.addr == 0
    }

    /// Forgets that the address is writable: always safe, a capability is
    /// only dropped.
    pub open spec fn spec_as_const(&self) -> ConstAddr {
        ConstAddr { addr: self.addr }
    }

    /// Forgets that the address is writable: always safe, a capability is
    /// only dropped.
    #[verifier::when_used_as_spec(spec_as_const)]
    pub fn as_const(&self) -> (r: ConstAddr)
        ensures
            r == self.spec_as_const(),
    {
        ConstAddr { addr: self.addr }
    }

    /// Renders the address exactly as a native pointer formats.
    pub fn addr_string(&self) -> (s: String)
        ensures
            s@ == ptr_text(self@ as nat),
    {
        hex_string(self.addr)
    }
}

} // verus!
