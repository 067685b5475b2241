use std::collections::hash_map::DefaultHasher;
use std::hash::Hash;
use std::hash::Hasher;

use sync_ptr::ConstAddr;
use sync_ptr::FromConstPtr;
use sync_ptr::FromMutPtr;
use sync_ptr::MutAddr;
use sync_ptr::SendConstPtr;
use sync_ptr::SendMutPtr;
use sync_ptr::SyncConstPtr;
use sync_ptr::SyncMutPtr;

fn hash_of<H: Hash>(v: &H) -> u64 {
    let mut state = DefaultHasher::new();
    v.hash(&mut state);
    state.finish()
}

#[test]
fn null_unwraps_to_null_for_all_kinds() {
    let a: SyncMutPtr<u64> = SyncMutPtr::null();
    let b: SyncConstPtr<u64> = SyncConstPtr::null();
    let c: SendMutPtr<u64> = SendMutPtr::null();
    let d: SendConstPtr<u64> = SendConstPtr::null();
    assert!(a.is_null());
    assert!(b.is_null());
    assert!(c.is_null());
    assert!(d.is_null());
    assert_eq!(a.inner(), MutAddr::null());
    assert_eq!(b.inner(), ConstAddr::null());
    assert_eq!(c.inner(), MutAddr::null());
    assert_eq!(d.inner(), ConstAddr::null());
    assert_eq!(a.inner().addr, 0);
    assert_eq!(b.inner().addr, 0);
    assert_eq!(c.inner().addr, 0);
    assert_eq!(d.inner().addr, 0);
}

#[test]
fn wrap_then_unwrap_returns_address() {
    let addresses: [usize; 4] = [0, 1, 0x1000, usize::MAX];
    for &a in addresses.iter() {
        let m = MutAddr::new(a);
        let c = ConstAddr::new(a);
        assert_eq!(SyncMutPtr::<u64>::new(m).inner(), m);
        assert_eq!(SyncConstPtr::<u64>::new(c).inner(), c);
        assert_eq!(SendMutPtr::<u64>::new(m).inner(), m);
        assert_eq!(SendConstPtr::<u64>::new(c).inner(), c);
    }
}

#[test]
fn identity_conversion_is_identity() {
    let m = MutAddr::new(0x40);
    let c = ConstAddr::new(0x40);
    let a: SyncMutPtr<u32> = SyncMutPtr::new(m);
    let b: SyncConstPtr<u32> = SyncConstPtr::new(c);
    let s: SendMutPtr<u32> = SendMutPtr::new(m);
    let d: SendConstPtr<u32> = SendConstPtr::new(c);
    assert_eq!(a.as_sync_mut(), a);
    assert_eq!(b.as_sync_const(), b);
    assert_eq!(s.as_send_mut(), s);
    assert_eq!(d.as_send_const(), d);
}

#[test]
fn equality_ignores_capability_marker() {
    let m = MutAddr::new(0x100);
    let w1: SendConstPtr<u64> = SyncMutPtr::new(m).as_send_const();
    let w2: SendConstPtr<u64> = SendMutPtr::new(m).as_send_const();
    assert_eq!(w1, w2);
    assert_eq!(hash_of(&w1), hash_of(&w2));

    let other: SendConstPtr<u64> = SendConstPtr::new(ConstAddr::new(0x200));
    assert_ne!(w1, other);
    assert!(w1 < other);
    assert!(!(other < w1));
    assert!(other > w1);
    assert!(w1 <= w2);
    assert!(w1 >= w2);
}

#[test]
fn cast_round_trip() {
    let m = MutAddr::new(0x8000);
    let c = ConstAddr::new(0x8000);
    let a: SyncMutPtr<u64> = SyncMutPtr::new(m);
    let b: SyncConstPtr<u64> = SyncConstPtr::new(c);
    let s: SendMutPtr<u64> = SendMutPtr::new(m);
    let d: SendConstPtr<u64> = SendConstPtr::new(c);
    assert_eq!(a.cast::<u8>().cast::<u64>(), a);
    assert_eq!(b.cast::<u8>().cast::<u64>(), b);
    assert_eq!(s.cast::<u8>().cast::<u64>(), s);
    assert_eq!(d.cast::<u8>().cast::<u64>(), d);
    assert_eq!(a.cast::<u8>().inner(), a.inner());
    assert_eq!(d.cast::<usize>().inner(), d.inner());
}

#[test]
fn kind_round_trip() {
    let m = MutAddr::new(0x2d00);
    let w: SyncMutPtr<u64> = SyncMutPtr::new(m);
    let narrowed: SendConstPtr<u64> = w.as_send_const();
    assert_eq!(narrowed.inner().addr, 0x2d00);
    let widened: SyncMutPtr<u64> = narrowed.as_sync_mut();
    assert_eq!(widened, w);
}

#[test]
fn conversion_chain_keeps_address() {
    let n = MutAddr::new(0x2d);
    let x: SyncConstPtr<u64> = n.as_sync_const();
    assert_eq!(x, x);
    let y: SendMutPtr<u64> = n.as_send_mut();
    let z: SyncConstPtr<u64> = y.as_sync_const();
    let u: SendMutPtr<u64> = z.as_send_mut();
    assert_eq!(x, z);
    assert_eq!(u, u);
    assert_eq!(u.inner().addr, 0x2d);
    assert!(!u.inner().is_null());
}

#[test]
fn promotion_from_bare_address() {
    let c = ConstAddr::new(0x77);
    let m = MutAddr::new(0x77);
    let a: SyncConstPtr<u8> = c.as_sync_const();
    let b: SendConstPtr<u8> = c.as_send_const();
    let d: SyncConstPtr<u8> = m.as_sync_const();
    let e: SendConstPtr<u8> = m.as_send_const();
    let f: SyncMutPtr<u8> = m.as_sync_mut();
    let g: SendMutPtr<u8> = m.as_send_mut();
    assert_eq!(a.inner().addr, 0x77);
    assert_eq!(b.inner().addr, 0x77);
    assert_eq!(d.inner().addr, 0x77);
    assert_eq!(e.inner().addr, 0x77);
    assert_eq!(f.inner().addr, 0x77);
    assert_eq!(g.inner().addr, 0x77);
    assert_eq!(a, d);
    assert_eq!(b, e);
}

struct ControlStructure {
    some_handle: SendConstPtr<u8>,
    some_rust_data: u64,
}

#[test]
fn wrapper_travels_inside_a_structure() {
    let handle = ConstAddr::null();
    let data: u64 = 123;
    let rcs = ControlStructure { some_handle: handle.as_send_const(), some_rust_data: data };
    assert!(rcs.some_handle.is_null());
    let unwrapped: ConstAddr = rcs.some_handle.inner();
    assert_eq!(unwrapped, ConstAddr::null());
    let unwrapped2: ConstAddr = rcs.some_handle.into();
    assert_eq!(unwrapped2, ConstAddr::null());
    let casted: SendConstPtr<usize> = rcs.some_handle.cast::<usize>();
    assert!(casted.is_null());
    assert_eq!(rcs.some_rust_data, 123u64);
}

#[test]
fn mut_addr_as_const_keeps_address() {
    let m = MutAddr::new(0x1c8);
    let c = m.as_const();
    assert_eq!(c.addr, 0x1c8);
    assert_eq!(c, ConstAddr::new(0x1c8));
}

#[test]
fn into_native_address_kinds() {
    let m = MutAddr::new(0x3039);
    let a: SyncMutPtr<u64> = SyncMutPtr::new(m);
    let s: SendMutPtr<u64> = SendMutPtr::new(m);
    let into_mut: MutAddr = a.into();
    let into_const: ConstAddr = a.into();
    assert_eq!(into_mut, m);
    assert_eq!(into_const, m.as_const());
    let into_mut2: MutAddr = s.into();
    let into_const2: ConstAddr = s.into();
    assert_eq!(into_mut2, m);
    assert_eq!(into_const2, m.as_const());
    let b: SyncConstPtr<u64> = a.as_sync_const();
    let into_const3: ConstAddr = b.into();
    assert_eq!(into_const3, ConstAddr::new(0x3039));
}

#[test]
fn total_order_follows_addresses() {
    let w1: SendConstPtr<u64> = SendConstPtr::new(ConstAddr::new(0x300));
    let w2: SendConstPtr<u64> = SendConstPtr::new(ConstAddr::new(0x100));
    let w3: SendConstPtr<u64> = SendConstPtr::new(ConstAddr::new(0x200));
    let mut v = vec![w1, w2, w3];
    v.sort();
    assert_eq!(v[0].inner().addr, 0x100);
    assert_eq!(v[1].inner().addr, 0x200);
    assert_eq!(v[2].inner().addr, 0x300);
    assert_eq!(w1.max(w2), w1);
    assert_eq!(w1.min(w2), w2);
}
