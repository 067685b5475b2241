use sync_ptr::hex_string;
use sync_ptr::ConstAddr;
use sync_ptr::FromConstPtr;
use sync_ptr::FromMutPtr;
use sync_ptr::MutAddr;
use sync_ptr::SendConstPtr;
use sync_ptr::SendMutPtr;
use sync_ptr::SyncConstPtr;
use sync_ptr::SyncMutPtr;

#[test]
fn null_formats_as_zero() {
    assert_eq!(ConstAddr::null().addr_string(), "0x0");
    assert_eq!(MutAddr::null().addr_string(), "0x0");
    assert_eq!(SyncMutPtr::<u64>::null().addr_string(), "0x0");
    assert_eq!(SyncConstPtr::<u64>::null().addr_string(), "0x0");
    assert_eq!(SendMutPtr::<u64>::null().addr_string(), "0x0");
    assert_eq!(SendConstPtr::<u64>::null().addr_string(), "0x0");
}

#[test]
fn hex_string_concrete_values() {
    assert_eq!(hex_string(0), "0x0");
    assert_eq!(hex_string(1), "0x1");
    assert_eq!(hex_string(15), "0xf");
    assert_eq!(hex_string(16), "0x10");
    assert_eq!(hex_string(45), "0x2d");
    assert_eq!(hex_string(123), "0x7b");
    assert_eq!(hex_string(255), "0xff");
    assert_eq!(hex_string(456), "0x1c8");
    assert_eq!(hex_string(12345), "0x3039");
}

#[test]
fn format_matches_native_hex_format() {
    let addresses: [usize; 8] = [0, 1, 15, 16, 255, 4096, 12345, usize::MAX];
    for &a in addresses.iter() {
        assert_eq!(hex_string(a), format!("{:#x}", a));
        assert_eq!(MutAddr::new(a).addr_string(), format!("{:#x}", a));
        assert_eq!(ConstAddr::new(a).addr_string(), format!("{:#x}", a));
    }
}

#[test]
fn format_ignores_capability_kind() {
    let a: usize = 12345;
    let handle = MutAddr::new(a);
    let expected = handle.addr_string();
    let send_const: SendConstPtr<u8> = handle.as_send_const();
    let send_mut: SendMutPtr<u8> = handle.as_send_mut();
    let sync_mut: SyncMutPtr<u8> = handle.as_sync_mut();
    let sync_const: SyncConstPtr<u8> = handle.as_sync_const();
    assert_eq!(send_const.addr_string(), expected);
    assert_eq!(send_mut.addr_string(), expected);
    assert_eq!(sync_mut.addr_string(), expected);
    assert_eq!(sync_const.addr_string(), expected);
    assert_eq!(sync_const.inner().addr_string(), expected);
    let other: SyncConstPtr<u8> = MutAddr::new(54321).as_sync_const();
    assert_ne!(other.addr_string(), expected);
}
