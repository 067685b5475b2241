//! The four capability-tagged wrapper kinds and the conversion lattice
//! between them.
//!
//! The kinds form a 2-by-2 matrix over two properties: whether the wrapped
//! address may be written through (mutable vs. const) and whether it may be
//! touched by several threads at once (shareable, `Sync...`) or only handed
//! to one other thread (transferable-only, `Send...`). A wrapper holds
//! nothing but the address and a phantom element type; its capability lives
//! in the type alone.
//!
//! Conversions that only drop a capability (mutable to const, shareable to
//! transferable-only, or a kind to itself) are plain operations. Conversions
//! that add one (const to mutable, transferable-only to shareable) rest on an
//! assertion that only the caller can make; each such operation says so in
//! its documentation, since no runtime check is possible. Every conversion,
//! either way, keeps the stored address bit for bit, and the contracts here
//! prove that.

use vstd::prelude::*;

use core::cmp::Ordering;
use core::marker::PhantomData;

use vstd::std_specs::cmp::PartialEqSpec;
use vstd::std_specs::cmp::PartialOrdSpec;
use vstd::std_specs::convert::FromSpec;

use crate::addr::ConstAddr;
use crate::addr::MutAddr;
use crate::hex::hex_string;
use crate::hex::ptr_text;

verus! {

/// Wrapped mutable address declared shareable: the caller asserted that the
/// address tolerates concurrent use from several threads.
#[derive(Debug, Hash, Ord)]
pub struct SyncMutPtr<T> {
    addr: usize,
    elem: PhantomData<T>,
}

/// Wrapped const address declared shareable: the caller asserted that the
/// address tolerates concurrent use from several threads.
#[derive(Debug, Hash, Ord)]
pub struct SyncConstPtr<T> {
    addr: usize,
    elem: PhantomData<T>,
}

/// Wrapped mutable address declared transferable-only: the caller asserted
/// that the address tolerates being handed to one other thread, but not
/// concurrent use.
#[derive(Debug, Hash, Ord)]
pub struct SendMutPtr<T> {
    addr: usize,
    elem: PhantomData<T>,
}

/// Wrapped const address declared transferable-only: the caller asserted
/// that the address tolerates being handed to one other thread, but not
/// concurrent use.
#[derive(Debug, Hash, Ord)]
pub struct SendConstPtr<T> {
    addr: usize,
    elem: PhantomData<T>,
}

impl<T> View for SyncMutPtr<T> {
    type V = usize;

    closed spec fn view(&self) -> usize {
        self.addr
    }
}

impl<T> Clone for SyncMutPtr<T> {
    fn clone(&self) -> (r: Self)
        ensures
            r == *self,
    {
        SyncMutPtr { addr: self.addr, elem: PhantomData }
    }
}

impl<T> Copy for SyncMutPtr<T> {

}

impl<T> PartialEq for SyncMutPtr<T> {
    fn eq(&self, other: &Self) -> (r: bool) {
        self.addr == other.addr
    }
}

impl<T> Eq for SyncMutPtr<T> {

}

impl<T> vstd::std_specs::cmp::PartialEqSpecImpl for SyncMutPtr<T> {
    open spec fn obeys_eq_spec() -> bool {
        true
    }

    closed spec fn eq_spec(&self, other: &Self) -> bool {
        self.addr == other.addr
    }
}

impl<T> PartialOrd for SyncMutPtr<T> {
    fn partial_cmp(&self, other: &Self) -> (r: Option<Ordering>) {
        if self.addr < other.addr {
            Some(Ordering::Less)
        } else if self.addr == other.addr {
            Some(Ordering::Equal)
        } else {
            Some(Ordering::Greater)
        }
    }
}

impl<T> vstd::std_specs::cmp::PartialOrdSpecImpl for SyncMutPtr<T> {
    open spec fn obeys_partial_cmp_spec() -> bool {
        true
    }

    closed spec fn partial_cmp_spec(&self, other: &Self) -> Option<Ordering> {
        if self.addr < other.addr {
            Some(Ordering::Less)
        } else if self.addr == other.addr {
            Some(Ordering::Equal)
        } else {
            Some(Ordering::Greater)
        }
    }
}

impl<T> SyncMutPtr<T> {
    /// The wrapper around the address of `p`.
    pub closed spec fn spec_new(p: MutAddr) -> Self {
        SyncMutPtr { addr: p.addr, elem: PhantomData }
    }

    /// Wraps `p` as mutable and shareable.
    ///
    /// The caller asserts that the address, if non-null, tolerates being sent
    /// to and used by other threads concurrently for as long as this value,
    /// or any value derived from it, stays reachable from more than one
    /// thread; nothing here checks that.
    #[verifier::when_used_as_spec(spec_new)]
    pub fn new(p: MutAddr) -> (r: Self)
        ensures
            r == Self::spec_new(p),
            r@ == p@,
    {
        SyncMutPtr { addr: p.addr, elem: PhantomData }
    }

    /// The wrapper around the null address.
    pub closed spec fn spec_null() -> Self {
        SyncMutPtr { addr: 0, elem: PhantomData }
    }

    /// Wraps the null address as mutable and shareable. This asserts nothing:
    /// no access ever happens through the null address.
    #[verifier::when_used_as_spec(spec_null)]
    pub fn null() -> (r: Self)
        ensures
            r == Self::spec_null(),
            r@ == 0,
    {
        SyncMutPtr { addr: 0, elem: PhantomData }
    }

    /// The same wrapper with the element type read as `Y`.
    pub closed spec fn spec_cast<Y>(&self) -> SyncMutPtr<Y> {
        SyncMutPtr { addr: self.addr, elem: PhantomData }
    }

    /// Relabels the element type as `Y`, keeping the address, the mutability
    /// and the capability: always safe, as with any address reinterpretation.
    #[verifier::when_used_as_spec(spec_cast)]
    pub fn cast<Y>(&self) -> (r: SyncMutPtr<Y>)
        ensures
            r == self.spec_cast::<Y>(),
            r@ == self@,
    {
        SyncMutPtr { addr: self.addr, elem: PhantomData }
    }

    /// The stored address, as a bare mutable address.
    pub closed spec fn spec_inner(&self) -> MutAddr {
        MutAddr { addr: self.addr }
    }

    /// Hands the stored address back. The bare address carries none of the
    /// asserted capability.
    #[verifier::when_used_as_spec(spec_inner)]
    pub fn inner(&self) -> (r: MutAddr)
        ensures
            r == self.spec_inner(),
            r@ == self@,
    {
        MutAddr { addr: self.addr }
    }

    /// The same address wrapped as const and shareable.
    pub closed spec fn spec_as_sync_const(&self) -> SyncConstPtr<T> {
        SyncConstPtr { addr: self.addr, elem: PhantomData }
    }

    /// Drops the mutability: always safe, a capability is only removed.
    #[verifier::when_used_as_spec(spec_as_sync_const)]
    pub fn as_sync_const(&self) -> (r: SyncConstPtr<T>)
        ensures
            r == self.spec_as_sync_const(),
            r@ == self@,
    {
        SyncConstPtr { addr: self.addr, elem: PhantomData }
    }

    /// The same address wrapped as const and transferable-only.
    pub closed spec fn spec_as_send_const(&self) -> SendConstPtr<T> {
        SendConstPtr { addr: self.addr, elem: PhantomData }
    }

    /// Drops the mutability and the shareability: always safe, capabilities
    /// are only removed.
    #[verifier::when_used_as_spec(spec_as_send_const)]
    pub fn as_send_const(&self) -> (r: SendConstPtr<T>)
        ensures
            r == self.spec_as_send_const(),
            r@ == self@,
    {
        SendConstPtr { addr: self.addr, elem: PhantomData }
    }

    /// The wrapper itself: the identity conversion.
    pub closed spec fn spec_as_sync_mut(&self) -> Self {
        SyncMutPtr { addr: self.addr, elem: PhantomData }
    }

    /// The identity conversion: same kind, same address, observably a no-op.
    #[verifier::when_used_as_spec(spec_as_sync_mut)]
    pub fn as_sync_mut(&self) -> (r: Self)
        ensures
            r == *self,
    {
        SyncMutPtr { addr: self.addr, elem: PhantomData }
    }

    /// The same address wrapped as mutable and transferable-only.
    pub closed spec fn spec_as_send_mut(&self) -> SendMutPtr<T> {
        SendMutPtr { addr: self.addr, elem: PhantomData }
    }

    /// Drops the shareability: always safe, a capability is only removed.
    #[verifier::when_used_as_spec(spec_as_send_mut)]
    pub fn as_send_mut(&self) -> (r: SendMutPtr<T>)
        ensures
            r == self.spec_as_send_mut(),
            r@ == self@,
    {
        SendMutPtr { addr: self.addr, elem: PhantomData }
    }

    /// Whether the stored address is the null address.
    pub fn is_null(&self) -> (r: bool)
        ensures
            r == (self@ == 0),
    {
        self.addr == 0
    }

    /// Renders the stored address exactly as the bare address renders.
    pub fn addr_string(&self) -> (s: String)
        ensures
            s@ == ptr_text(self@ as nat),
    {
        hex_string(self.addr)
    }
}

impl<T> View for SyncConstPtr<T> {
    type V = usize;

    closed spec fn view(&self) -> usize {
        self.addr
    }
}

impl<T> Clone for SyncConstPtr<T> {
    fn clone(&self) -> (r: Self)
        ensures
            r == *self,
    {
        SyncConstPtr { addr: self.addr, elem: PhantomData }
    }
}

impl<T> Copy for SyncConstPtr<T> {

}

impl<T> PartialEq for SyncConstPtr<T> {
    fn eq(&self, other: &Self) -> (r: bool) {
        self.addr == other.addr
    }
}

impl<T> Eq for SyncConstPtr<T> {

}

impl<T> vstd::std_specs::cmp::PartialEqSpecImpl for SyncConstPtr<T> {
    open spec fn obeys_eq_spec() -> bool {
        true
    }

    closed spec fn eq_spec(&self, other: &Self) -> bool {
        self.addr == other.addr
    }
}

impl<T> PartialOrd for SyncConstPtr<T> {
    fn partial_cmp(&self, other: &Self) -> (r: Option<Ordering>) {
        if self.addr < other.addr {
            Some(Ordering::Less)
        } else if self.addr == other.addr {
            Some(Ordering::Equal)
        } else {
            Some(Ordering::Greater)
        }
    }
}

impl<T> vstd::std_specs::cmp::PartialOrdSpecImpl for SyncConstPtr<T> {
    open spec fn obeys_partial_cmp_spec() -> bool {
        true
    }

    closed spec fn partial_cmp_spec(&self, other: &Self) -> Option<Ordering> {
        if self.addr < other.addr {
            Some(Ordering::Less)
        } else if self.addr == other.addr {
            Some(Ordering::Equal)
        } else {
            Some(Ordering::Greater)
        }
    }
}

impl<T> SyncConstPtr<T> {
    /// The wrapper around the address of `p`.
    pub closed spec fn spec_new(p: ConstAddr) -> Self {
        SyncConstPtr { addr: p.addr, elem: PhantomData }
    }

    /// Wraps `p` as const and shareable.
    ///
    /// The caller asserts that the address, if non-null, tolerates being sent
    /// to and used by other threads concurrently for as long as this value,
    /// or any value derived from it, stays reachable from more than one
    /// thread; nothing here checks that.
    #[verifier::when_used_as_spec(spec_new)]
    pub fn new(p: ConstAddr) -> (r: Self)
        ensures
            r == Self::spec_new(p),
            r@ == p@,
    {
        SyncConstPtr { addr: p.addr, elem: PhantomData }
    }

    /// The wrapper around the null address.
    pub closed spec fn spec_null() -> Self {
        SyncConstPtr { addr: 0, elem: PhantomData }
    }

    /// Wraps the null address as const and shareable. This asserts nothing:
    /// no access ever happens through the null address.
    #[verifier::when_used_as_spec(spec_null)]
    pub fn null() -> (r: Self)
        ensures
            r == Self::spec_null(),
            r@ == 0,
    {
        SyncConstPtr { addr: 0, elem: PhantomData }
    }

    /// The same wrapper with the element type read as `Y`.
    pub closed spec fn spec_cast<Y>(&self) -> SyncConstPtr<Y> {
        SyncConstPtr { addr: self.addr, elem: PhantomData }
    }

    /// Relabels the element type as `Y`, keeping the address, the mutability
    /// and the capability: always safe, as with any address reinterpretation.
    #[verifier::when_used_as_spec(spec_cast)]
    pub fn cast<Y>(&self) -> (r: SyncConstPtr<Y>)
        ensures
            r == self.spec_cast::<Y>(),
            r@ == self@,
    {
        SyncConstPtr { addr: self.addr, elem: PhantomData }
    }

    /// The stored address, as a bare const address.
    pub closed spec fn spec_inner(&self) -> ConstAddr {
        ConstAddr { addr: self.addr }
    }

    /// Hands the stored address back. The bare address carries none of the
    /// asserted capability.
    #[verifier::when_used_as_spec(spec_inner)]
    pub fn inner(&self) -> (r: ConstAddr)
        ensures
            r == self.spec_inner(),
            r@ == self@,
    {
        ConstAddr { addr: self.addr }
    }

    /// The wrapper itself: the identity conversion.
    pub closed spec fn spec_as_sync_const(&self) -> Self {
        SyncConstPtr { addr: self.addr, elem: PhantomData }
    }

    /// The identity conversion: same kind, same address, observably a no-op.
    #[verifier::when_used_as_spec(spec_as_sync_const)]
    pub fn as_sync_const(&self) -> (r: Self)
        ensures
            r == *self,
    {
        SyncConstPtr { addr: self.addr, elem: PhantomData }
    }

    /// The same address wrapped as const and transferable-only.
    pub closed spec fn spec_as_send_const(&self) -> SendConstPtr<T> {
        SendConstPtr { addr: self.addr, elem: PhantomData }
    }

    /// Drops the shareability: always safe, a capability is only removed.
    #[verifier::when_used_as_spec(spec_as_send_const)]
    pub fn as_send_const(&self) -> (r: SendConstPtr<T>)
        ensures
            r == self.spec_as_send_const(),
            r@ == self@,
    {
        SendConstPtr { addr: self.addr, elem: PhantomData }
    }

    /// The same address wrapped as mutable and shareable.
    pub closed spec fn spec_as_sync_mut(&self) -> SyncMutPtr<T> {
        SyncMutPtr { addr: self.addr, elem: PhantomData }
    }

    /// Declares the address writable.
    ///
    /// The caller asserts that writing through the address is sound for this
    /// use; writing to genuinely immutable data is undefined behaviour, and
    /// nothing here checks that.
    #[verifier::when_used_as_spec(spec_as_sync_mut)]
    pub fn as_sync_mut(&self) -> (r: SyncMutPtr<T>)
        ensures
            r == self.spec_as_sync_mut(),
            r@ == self@,
    {
        SyncMutPtr { addr: self.addr, elem: PhantomData }
    }

    /// The same address wrapped as mutable and transferable-only.
    pub closed spec fn spec_as_send_mut(&self) -> SendMutPtr<T> {
        SendMutPtr { addr: self.addr, elem: PhantomData }
    }

    /// Declares the address writable, dropping the shareability.
    ///
    /// The caller asserts that writing through the address is sound for this
    /// use; writing to genuinely immutable data is undefined behaviour, and
    /// nothing here checks that.
    #[verifier::when_used_as_spec(spec_as_send_mut)]
    pub fn as_send_mut(&self) -> (r: SendMutPtr<T>)
        ensures
            r == self.spec_as_send_mut(),
            r@ == self@,
    {
        SendMutPtr { addr: self.addr, elem: PhantomData }
    }

    /// Whether the stored address is the null address.
    pub fn is_null(&self) -> (r: bool)
        ensures
            r == (self@ == 0),
    {
        self.addr == 0
    }

    /// Renders the stored address exactly as the bare address renders.
    pub fn addr_string(&self) -> (s: String)
        ensures
            s@ == ptr_text(self@ as nat),
    {
        hex_string(self.addr)
    }
}

impl<T> View for SendMutPtr<T> {
    type V = usize;

    closed spec fn view(&self) -> usize {
        self.addr
    }
}

impl<T> Clone for SendMutPtr<T> {
    fn clone(&self) -> (r: Self)
        ensures
            r == *self,
    {
        SendMutPtr { addr: self.addr, elem: PhantomData }
    }
}

impl<T> Copy for SendMutPtr<T> {

}

impl<T> PartialEq for SendMutPtr<T> {
    fn eq(&self, other: &Self) -> (r: bool) {
        self.addr == other.addr
    }
}

impl<T> Eq for SendMutPtr<T> {

}

impl<T> vstd::std_specs::cmp::PartialEqSpecImpl for SendMutPtr<T> {
    open spec fn obeys_eq_spec() -> bool {
        true
    }

    closed spec fn eq_spec(&self, other: &Self) -> bool {
        self.addr == other.addr
    }
}

impl<T> PartialOrd for SendMutPtr<T> {
    fn partial_cmp(&self, other: &Self) -> (r: Option<Ordering>) {
        if self.addr < other.addr {
            Some(Ordering::Less)
        } else if self.addr == other.addr {
            Some(Ordering::Equal)
        } else {
            Some(Ordering::Greater)
        }
    }
}

impl<T> vstd::std_specs::cmp::PartialOrdSpecImpl for SendMutPtr<T> {
    open spec fn obeys_partial_cmp_spec() -> bool {
        true
    }

    closed spec fn partial_cmp_spec(&self, other: &Self) -> Option<Ordering> {
        if self.addr < other.addr {
            Some(Ordering::Less)
        } else if self.addr == other.addr {
            Some(Ordering::Equal)
        } else {
            Some(Ordering::Greater)
        }
    }
}

impl<T> SendMutPtr<T> {
    /// The wrapper around the address of `p`.
    pub closed spec fn spec_new(p: MutAddr) -> Self {
        SendMutPtr { addr: p.addr, elem: PhantomData }
    }

    /// Wraps `p` as mutable and transferable-only.
    ///
    /// The caller asserts that the address, if non-null, tolerates being sent
    /// to and used by one other thread for as long as this value, or any
    /// value derived from it, stays reachable from more than one thread;
    /// nothing here checks that.
    #[verifier::when_used_as_spec(spec_new)]
    pub fn new(p: MutAddr) -> (r: Self)
        ensures
            r == Self::spec_new(p),
            r@ == p@,
    {
        SendMutPtr { addr: p.addr, elem: PhantomData }
    }

    /// The wrapper around the null address.
    pub closed spec fn spec_null() -> Self {
        SendMutPtr { addr: 0, elem: PhantomData }
    }

    /// Wraps the null address as mutable and transferable-only. This asserts nothing:
    /// no access ever happens through the null address.
    #[verifier::when_used_as_spec(spec_null)]
    pub fn null() -> (r: Self)
        ensures
            r == Self::spec_null(),
            r@ == 0,
    {
        SendMutPtr { addr: 0, elem: PhantomData }
    }

    /// The same wrapper with the element type read as `Y`.
    pub closed spec fn spec_cast<Y>(&self) -> SendMutPtr<Y> {
        SendMutPtr { addr: self.addr, elem: PhantomData }
    }

    /// Relabels the element type as `Y`, keeping the address, the mutability
    /// and the capability: always safe, as with any address reinterpretation.
    #[verifier::when_used_as_spec(spec_cast)]
    pub fn cast<Y>(&self) -> (r: SendMutPtr<Y>)
        ensures
            r == self.spec_cast::<Y>(),
            r@ == self@,
    {
        SendMutPtr { addr: self.addr, elem: PhantomData }
    }

    /// The stored address, as a bare mutable address.
    pub closed spec fn spec_inner(&self) -> MutAddr {
        MutAddr { addr: self.addr }
    }

    /// Hands the stored address back. The bare address carries none of the
    /// asserted capability.
    #[verifier::when_used_as_spec(spec_inner)]
    pub fn inner(&self) -> (r: MutAddr)
        ensures
            r == self.spec_inner(),
            r@ == self@,
    {
        MutAddr { addr: self.addr }
    }

    /// The same address wrapped as const and shareable.
    pub closed spec fn spec_as_sync_const(&self) -> SyncConstPtr<T> {
        SyncConstPtr { addr: self.addr, elem: PhantomData }
    }

    /// Declares the address shareable, dropping the mutability.
    ///
    /// The caller asserts that the address tolerates concurrent use from
    /// several threads at once; nothing here checks that.
    #[verifier::when_used_as_spec(spec_as_sync_const)]
    pub fn as_sync_const(&self) -> (r: SyncConstPtr<T>)
        ensures
            r == self.spec_as_sync_const(),
            r@ == self@,
    {
        SyncConstPtr { addr: self.addr, elem: PhantomData }
    }

    /// The same address wrapped as const and transferable-only.
    pub closed spec fn spec_as_send_const(&self) -> SendConstPtr<T> {
        SendConstPtr { addr: self.addr, elem: PhantomData }
    }

    /// Drops the mutability: always safe, a capability is only removed.
    #[verifier::when_used_as_spec(spec_as_send_const)]
    pub fn as_send_const(&self) -> (r: SendConstPtr<T>)
        ensures
            r == self.spec_as_send_const(),
            r@ == self@,
    {
        SendConstPtr { addr: self.addr, elem: PhantomData }
    }

    /// The same address wrapped as mutable and shareable.
    pub closed spec fn spec_as_sync_mut(&self) -> SyncMutPtr<T> {
        SyncMutPtr { addr: self.addr, elem: PhantomData }
    }

    /// Declares the address shareable, keeping the mutability.
    ///
    /// The caller asserts that the address tolerates concurrent use from
    /// several threads at once; nothing here checks that.
    #[verifier::when_used_as_spec(spec_as_sync_mut)]
    pub fn as_sync_mut(&self) -> (r: SyncMutPtr<T>)
        ensures
            r == self.spec_as_sync_mut(),
            r@ == self@,
    {
        SyncMutPtr { addr: self.addr, elem: PhantomData }
    }

    /// The wrapper itself: the identity conversion.
    pub closed spec fn spec_as_send_mut(&self) -> Self {
        SendMutPtr { addr: self.addr, elem: PhantomData }
    }

    /// The identity conversion: same kind, same address, observably a no-op.
    #[verifier::when_used_as_spec(spec_as_send_mut)]
    pub fn as_send_mut(&self) -> (r: Self)
        ensures
            r == *self,
    {
        SendMutPtr { addr: self.addr, elem: PhantomData }
    }

    /// Whether the stored address is the null address.
    pub fn is_null(&self) -> (r: bool)
        ensures
            r == (self@ == 0),
    {
        self.addr == 0
    }

    /// Renders the stored address exactly as the bare address renders.
    pub fn addr_string(&self) -> (s: String)
        ensures
            s@ == ptr_text(self@ as nat),
    {
        hex_string(self.addr)
    }
}

impl<T> View for SendConstPtr<T> {
    type V = usize;

    closed spec fn view(&self) -> usize {
        self.addr
    }
}

impl<T> Clone for SendConstPtr<T> {
    fn clone(&self) -> (r: Self)
        ensures
            r == *self,
    {
        SendConstPtr { addr: self.addr, elem: PhantomData }
    }
}

impl<T> Copy for SendConstPtr<T> {

}

impl<T> PartialEq for SendConstPtr<T> {
    fn eq(&self, other: &Self) -> (r: bool) {
        self.addr == other.addr
    }
}

impl<T> Eq for SendConstPtr<T> {

}

impl<T> vstd::std_specs::cmp::PartialEqSpecImpl for SendConstPtr<T> {
    open spec fn obeys_eq_spec() -> bool {
        true
    }

    closed spec fn eq_spec(&self, other: &Self) -> bool {
        self.addr == other.addr
    }
}

impl<T> PartialOrd for SendConstPtr<T> {
    fn partial_cmp(&self, other: &Self) -> (r: Option<Ordering>) {
        if self.addr < other.addr {
            Some(Ordering::Less)
        } else if self.addr == other.addr {
            Some(Ordering::Equal)
        } else {
            Some(Ordering::Greater)
        }
    }
}

impl<T> vstd::std_specs::cmp::PartialOrdSpecImpl for SendConstPtr<T> {
    open spec fn obeys_partial_cmp_spec() -> bool {
        true
    }

    closed spec fn partial_cmp_spec(&self, other: &Self) -> Option<Ordering> {
        if self.addr < other.addr {
            Some(Ordering::Less)
        } else if self.addr == other.addr {
            Some(Ordering::Equal)
        } else {
            Some(Ordering::Greater)
        }
    }
}

impl<T> SendConstPtr<T> {
    /// The wrapper around the address of `p`.
    pub closed spec fn spec_new(p: ConstAddr) -> Self {
        SendConstPtr { addr: p.addr, elem: PhantomData }
    }

    /// Wraps `p` as const and transferable-only.
    ///
    /// The caller asserts that the address, if non-null, tolerates being sent
    /// to and used by one other thread for as long as this value, or any
    /// value derived from it, stays reachable from more than one thread;
    /// nothing here checks that.
    #[verifier::when_used_as_spec(spec_new)]
    pub fn new(p: ConstAddr) -> (r: Self)
        ensures
            r == Self::spec_new(p),
            r@ == p@,
    {
        SendConstPtr { addr: p.addr, elem: PhantomData }
    }

    /// The wrapper around the null address.
    pub closed spec fn spec_null() -> Self {
        SendConstPtr { addr: 0, elem: PhantomData }
    }

    /// Wraps the null address as const and transferable-only. This asserts nothing:
    /// no access ever happens through the null address.
    #[verifier::when_used_as_spec(spec_null)]
    pub fn null() -> (r: Self)
        ensures
            r == Self::spec_null(),
            r@ == 0,
    {
        SendConstPtr { addr: 0, elem: PhantomData }
    }

    /// The same wrapper with the element type read as `Y`.
    pub closed spec fn spec_cast<Y>(&self) -> SendConstPtr<Y> {
        SendConstPtr { addr: self.addr, elem: PhantomData }
    }

    /// Relabels the element type as `Y`, keeping the address, the mutability
    /// and the capability: always safe, as with any address reinterpretation.
    #[verifier::when_used_as_spec(spec_cast)]
    pub fn cast<Y>(&self) -> (r: SendConstPtr<Y>)
        ensures
            r == self.spec_cast::<Y>(),
            r@ == self@,
    {
        SendConstPtr { addr: self.addr, elem: PhantomData }
    }

    /// The stored address, as a bare const address.
    pub closed spec fn spec_inner(&self) -> ConstAddr {
        ConstAddr { addr: self.addr }
    }

    /// Hands the stored address back. The bare address carries none of the
    /// asserted capability.
    #[verifier::when_used_as_spec(spec_inner)]
    pub fn inner(&self) -> (r: ConstAddr)
        ensures
            r == self.spec_inner(),
            r@ == self@,
    {
        ConstAddr { addr: self.addr }
    }

    /// The same address wrapped as const and shareable.
    pub closed spec fn spec_as_sync_const(&self) -> SyncConstPtr<T> {
        SyncConstPtr { addr: self.addr, elem: PhantomData }
    }

    /// Declares the address shareable, keeping it const.
    ///
    /// The caller asserts that the address tolerates concurrent use from
    /// several threads at once; nothing here checks that.
    #[verifier::when_used_as_spec(spec_as_sync_const)]
    pub fn as_sync_const(&self) -> (r: SyncConstPtr<T>)
        ensures
            r == self.spec_as_sync_const(),
            r@ == self@,
    {
        SyncConstPtr { addr: self.addr, elem: PhantomData }
    }

    /// The wrapper itself: the identity conversion.
    pub closed spec fn spec_as_send_const(&self) -> Self {
        SendConstPtr { addr: self.addr, elem: PhantomData }
    }

    /// The identity conversion: same kind, same address, observably a no-op.
    #[verifier::when_used_as_spec(spec_as_send_const)]
    pub fn as_send_const(&self) -> (r: Self)
        ensures
            r == *self,
    {
        SendConstPtr { addr: self.addr, elem: PhantomData }
    }

    /// The same address wrapped as mutable and shareable.
    pub closed spec fn spec_as_sync_mut(&self) -> SyncMutPtr<T> {
        SyncMutPtr { addr: self.addr, elem: PhantomData }
    }

    /// Declares the address shareable and writable.
    ///
    /// The caller asserts both that the address tolerates concurrent use from
    /// several threads at once and that writing through it is sound for this
    /// use; nothing here checks either.
    #[verifier::when_used_as_spec(spec_as_sync_mut)]
    pub fn as_sync_mut(&self) -> (r: SyncMutPtr<T>)
        ensures
            r == self.spec_as_sync_mut(),
            r@ == self@,
    {
        SyncMutPtr { addr: self.addr, elem: PhantomData }
    }

    /// The same address wrapped as mutable and transferable-only.
    pub closed spec fn spec_as_send_mut(&self) -> SendMutPtr<T> {
        SendMutPtr { addr: self.addr, elem: PhantomData }
    }

    /// Declares the address writable.
    ///
    /// The caller asserts that writing through the address is sound for this
    /// use; writing to genuinely immutable data is undefined behaviour, and
    /// nothing here checks that.
    #[verifier::when_used_as_spec(spec_as_send_mut)]
    pub fn as_send_mut(&self) -> (r: SendMutPtr<T>)
        ensures
            r == self.spec_as_send_mut(),
            r@ == self@,
    {
        SendMutPtr { addr: self.addr, elem: PhantomData }
    }

    /// Whether the stored address is the null address.
    pub fn is_null(&self) -> (r: bool)
        ensures
            r == (self@ == 0),
    {
        self.addr == 0
    }

    /// Renders the stored address exactly as the bare address renders.
    pub fn addr_string(&self) -> (s: String)
        ensures
            s@ == ptr_text(self@ as nat),
    {
        hex_string(self.addr)
    }
}

/// Capability promotion for a bare address of read-only data.
///
/// A bare address carries no declared cross-thread capability at all, so
/// every promotion from one is capability-widening, whatever the target
/// kind, and rests on the caller's assertion; between two wrapper kinds,
/// by contrast, only the genuinely widening conversions do.
pub trait FromConstPtr<T>: Sized + View<V = usize> {
    /// Wraps the address as const and shareable.
    ///
    /// The caller asserts that the address, if non-null, tolerates being
    /// sent to and used by other threads concurrently; nothing here checks
    /// that.
    fn as_sync_const(&self) -> (r: SyncConstPtr<T>)
        ensures
            r@ == self@,
    ;

    /// Wraps the address as const and transferable-only.
    ///
    /// The caller asserts that the address, if non-null, tolerates being
    /// sent to and used by one other thread; nothing here checks that.
    fn as_send_const(&self) -> (r: SendConstPtr<T>)
        ensures
            r@ == self@,
    ;
}

/// Capability promotion for a bare address of writable data: everything a
/// read-only address offers, and the two mutable target kinds besides.
pub trait FromMutPtr<T>: FromConstPtr<T> {
    /// Wraps the address as mutable and shareable.
    ///
    /// The caller asserts that the address, if non-null, tolerates being
    /// sent to and used by other threads concurrently; nothing here checks
    /// that.
    fn as_sync_mut(&self) -> (r: SyncMutPtr<T>)
        ensures
            r@ == self@,
    ;

    /// Wraps the address as mutable and transferable-only.
    ///
    /// The caller asserts that the address, if non-null, tolerates being
    /// sent to and used by one other thread; nothing here checks that.
    fn as_send_mut(&self) -> (r: SendMutPtr<T>)
        ensures
            r@ == self@,
    ;
}

impl<T> FromConstPtr<T> for ConstAddr {
    fn as_sync_const(&self) -> SyncConstPtr<T> {
        SyncConstPtr::new(*self)
    }

    fn as_send_const(&self) -> SendConstPtr<T> {
        SendConstPtr::new(*self)
    }
}

impl<T> FromConstPtr<T> for MutAddr {
    fn as_sync_const(&self) -> SyncConstPtr<T> {
        SyncConstPtr::new(self.as_const())
    }

    fn as_send_const(&self) -> SendConstPtr<T> {
        SendConstPtr::new(self.as_const())
    }
}

impl<T> FromMutPtr<T> for MutAddr {
    fn as_sync_mut(&self) -> SyncMutPtr<T> {
        SyncMutPtr::new(*self)
    }

    fn as_send_mut(&self) -> SendMutPtr<T> {
        SendMutPtr::new(*self)
    }
}

// A wrapper converts into the native address kinds its own mutability
// permits, exactly as unwrapping it does.

impl<T> From<SyncMutPtr<T>> for MutAddr {
    fn from(v: SyncMutPtr<T>) -> MutAddr {
        MutAddr { addr: v.addr }
    }
}

impl<T> vstd::std_specs::convert::FromSpecImpl<SyncMutPtr<T>> for MutAddr {
    open spec fn obeys_from_spec() -> bool {
        true
    }

    closed spec fn from_spec(v: SyncMutPtr<T>) -> Self {
        MutAddr { addr: v.addr }
    }
}

impl<T> From<SyncMutPtr<T>> for ConstAddr {
    fn from(v: SyncMutPtr<T>) -> ConstAddr {
        ConstAddr { addr: v.addr }
    }
}

impl<T> vstd::std_specs::convert::FromSpecImpl<SyncMutPtr<T>> for ConstAddr {
    open spec fn obeys_from_spec() -> bool {
        true
    }

    closed spec fn from_spec(v: SyncMutPtr<T>) -> Self {
        ConstAddr { addr: v.addr }
    }
}

impl<T> From<SyncConstPtr<T>> for ConstAddr {
    fn from(v: SyncConstPtr<T>) -> ConstAddr {
        ConstAddr { addr: v.addr }
    }
}

impl<T> vstd::std_specs::convert::FromSpecImpl<SyncConstPtr<T>> for ConstAddr {
    open spec fn obeys_from_spec() -> bool {
        true
    }

    closed spec fn from_spec(v: SyncConstPtr<T>) -> Self {
        ConstAddr { addr: v.addr }
    }
}

impl<T> From<SendMutPtr<T>> for MutAddr {
    fn from(v: SendMutPtr<T>) -> MutAddr {
        MutAddr { addr: v.addr }
    }
}

impl<T> vstd::std_specs::convert::FromSpecImpl<SendMutPtr<T>> for MutAddr {
    open spec fn obeys_from_spec() -> bool {
        true
    }

    closed spec fn from_spec(v: SendMutPtr<T>) -> Self {
        MutAddr { addr: v.addr }
    }
}

impl<T> From<SendMutPtr<T>> for ConstAddr {
    fn from(v: SendMutPtr<T>) -> ConstAddr {
        ConstAddr { addr: v.addr }
    }
}

impl<T> vstd::std_specs::convert::FromSpecImpl<SendMutPtr<T>> for ConstAddr {
    open spec fn obeys_from_spec() -> bool {
        true
    }

    closed spec fn from_spec(v: SendMutPtr<T>) -> Self {
        ConstAddr { addr: v.addr }
    }
}

impl<T> From<SendConstPtr<T>> for ConstAddr {
    fn from(v: SendConstPtr<T>) -> ConstAddr {
        ConstAddr { addr: v.addr }
    }
}

impl<T> vstd::std_specs::convert::FromSpecImpl<SendConstPtr<T>> for ConstAddr {
    open spec fn obeys_from_spec() -> bool {
        true
    }

    closed spec fn from_spec(v: SendConstPtr<T>) -> Self {
        ConstAddr { addr: v.addr }
    }
}

/// Converting a mutable-shareable wrapper into a native address kind yields
/// exactly the unwrapped address.
pub proof fn lemma_sync_mut_into_addr<T>(v: SyncMutPtr<T>)
    ensures
        MutAddr::from_spec(v) == v.inner(),
        ConstAddr::from_spec(v) == v.inner().as_const(),
        MutAddr::from_spec(v)@ == v@,
        ConstAddr::from_spec(v)@ == v@,
{
}

/// Converting a const-shareable wrapper into the native const address kind
/// yields exactly the unwrapped address.
pub proof fn lemma_sync_const_into_addr<T>(v: SyncConstPtr<T>)
    ensures
        ConstAddr::from_spec(v) == v.inner(),
        ConstAddr::from_spec(v)@ == v@,
{
}

/// Converting a mutable transferable-only wrapper into a native address kind
/// yields exactly the unwrapped address.
pub proof fn lemma_send_mut_into_addr<T>(v: SendMutPtr<T>)
    ensures
        MutAddr::from_spec(v) == v.inner(),
        ConstAddr::from_spec(v) == v.inner().as_const(),
        MutAddr::from_spec(v)@ == v@,
        ConstAddr::from_spec(v)@ == v@,
{
}

/// Converting a const transferable-only wrapper into the native const
/// address kind yields exactly the unwrapped address.
pub proof fn lemma_send_const_into_addr<T>(v: SendConstPtr<T>)
    ensures
        ConstAddr::from_spec(v) == v.inner(),
        ConstAddr::from_spec(v)@ == v@,
{
}

/// Wrapping any address, the null address included, under any of the four
/// kinds and unwrapping it again yields exactly the address that went in.
pub proof fn lemma_wrap_unwrap<T>(p: MutAddr, q: ConstAddr)
    ensures
        SyncMutPtr::<T>::new(p).inner() == p,
        SyncConstPtr::<T>::new(q).inner() == q,
        SendMutPtr::<T>::new(p).inner() == p,
        SendConstPtr::<T>::new(q).inner() == q,
{
}

/// A null wrapper of any kind needs no assertion to build, and always
/// unwraps to the null address.
pub proof fn lemma_null_unwraps_null<T>()
    ensures
        SyncMutPtr::<T>::null().inner() == MutAddr::null(),
        SendMutPtr::<T>::null().inner() == MutAddr::null(),
        SyncConstPtr::<T>::null().inner() == ConstAddr::null(),
        SendConstPtr::<T>::null().inner() == ConstAddr::null(),
        SyncMutPtr::<T>::null()@ == 0,
        SyncConstPtr::<T>::null()@ == 0,
        SendMutPtr::<T>::null()@ == 0,
        SendConstPtr::<T>::null()@ == 0,
{
}

/// Narrowing is idempotent: converting a wrapper to the kind it already has
/// returns the wrapper itself, for all four kinds.
pub proof fn lemma_identity_conversion<T>(
    a: SyncMutPtr<T>,
    b: SyncConstPtr<T>,
    c: SendMutPtr<T>,
    d: SendConstPtr<T>,
)
    ensures
        a.as_sync_mut() == a,
        b.as_sync_const() == b,
        c.as_send_mut() == c,
        d.as_send_const() == d,
{
}

/// Equality and ordering of two mutable-shareable wrappers are exactly
/// equality and ordering of their stored addresses; the capability marker
/// and the element type never take part.
pub proof fn lemma_sync_mut_cmp_by_addr<T>(w1: SyncMutPtr<T>, w2: SyncMutPtr<T>)
    ensures
        w1.eq_spec(&w2) <==> w1@ == w2@,
        w1.partial_cmp_spec(&w2) == Some(Ordering::Equal) <==> w1@ == w2@,
        w1.partial_cmp_spec(&w2) == Some(Ordering::Less) <==> w1@ < w2@,
        w1.partial_cmp_spec(&w2) == Some(Ordering::Greater) <==> w1@ > w2@,
{
}

/// Equality and ordering of two const-shareable wrappers are exactly
/// equality and ordering of their stored addresses; the capability marker
/// and the element type never take part.
pub proof fn lemma_sync_const_cmp_by_addr<T>(w1: SyncConstPtr<T>, w2: SyncConstPtr<T>)
    ensures
        w1.eq_spec(&w2) <==> w1@ == w2@,
        w1.partial_cmp_spec(&w2) == Some(Ordering::Equal) <==> w1@ == w2@,
        w1.partial_cmp_spec(&w2) == Some(Ordering::Less) <==> w1@ < w2@,
        w1.partial_cmp_spec(&w2) == Some(Ordering::Greater) <==> w1@ > w2@,
{
}

/// Equality and ordering of two mutable transferable-only wrappers are
/// exactly equality and ordering of their stored addresses; the capability
/// marker and the element type never take part.
pub proof fn lemma_send_mut_cmp_by_addr<T>(w1: SendMutPtr<T>, w2: SendMutPtr<T>)
    ensures
        w1.eq_spec(&w2) <==> w1@ == w2@,
        w1.partial_cmp_spec(&w2) == Some(Ordering::Equal) <==> w1@ == w2@,
        w1.partial_cmp_spec(&w2) == Some(Ordering::Less) <==> w1@ < w2@,
        w1.partial_cmp_spec(&w2) == Some(Ordering::Greater) <==> w1@ > w2@,
{
}

/// Equality and ordering of two const transferable-only wrappers are exactly
/// equality and ordering of their stored addresses; the capability marker
/// and the element type never take part.
pub proof fn lemma_send_const_cmp_by_addr<T>(w1: SendConstPtr<T>, w2: SendConstPtr<T>)
    ensures
        w1.eq_spec(&w2) <==> w1@ == w2@,
        w1.partial_cmp_spec(&w2) == Some(Ordering::Equal) <==> w1@ == w2@,
        w1.partial_cmp_spec(&w2) == Some(Ordering::Less) <==> w1@ < w2@,
        w1.partial_cmp_spec(&w2) == Some(Ordering::Greater) <==> w1@ > w2@,
{
}

/// Casting the element type to `Y` and back to `T` yields exactly the
/// original wrapper, for all four kinds and any two element types.
pub proof fn lemma_cast_round_trip<T, Y>(
    a: SyncMutPtr<T>,
    b: SyncConstPtr<T>,
    c: SendMutPtr<T>,
    d: SendConstPtr<T>,
)
    ensures
        a.cast::<Y>().cast::<T>() == a,
        b.cast::<Y>().cast::<T>() == b,
        c.cast::<Y>().cast::<T>() == c,
        d.cast::<Y>().cast::<T>() == d,
{
}

/// A wrapper of any kind renders exactly the text of its unwrapped bare
/// address: formatting never sees the capability marker.
pub proof fn lemma_text_by_addr<T>(
    a: SyncMutPtr<T>,
    b: SyncConstPtr<T>,
    c: SendMutPtr<T>,
    d: SendConstPtr<T>,
)
    ensures
        ptr_text(a@ as nat) == ptr_text(a.inner()@ as nat),
        ptr_text(b@ as nat) == ptr_text(b.inner()@ as nat),
        ptr_text(c@ as nat) == ptr_text(c.inner()@ as nat),
        ptr_text(d@ as nat) == ptr_text(d.inner()@ as nat),
{
}

/// The round trip across kinds: narrowing a mutable-shareable wrapper all
/// the way down to const and transferable-only, then widening it back under
/// the caller's renewed assertion, yields exactly the original wrapper.
pub proof fn lemma_kind_round_trip<T>(w: SyncMutPtr<T>)
    ensures
        w.as_send_const().as_sync_mut() == w,
{
}

} // verus!
