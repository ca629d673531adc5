use psp_net::types::{SocketRecvFlags, SocketSendFlags};

#[test]
fn send_flags_hold_only_named_bits() {
    assert_eq!(SocketSendFlags::NONE, 0x0);
    assert_eq!(SocketSendFlags::MSG_OOB, 0x1);
    assert_eq!(SocketSendFlags::MSG_EOR, 0x8);
    assert_eq!(SocketSendFlags::empty().bits(), 0);
    assert_eq!(SocketSendFlags::all().bits(), 0x9);
    assert_eq!(SocketSendFlags::default(), SocketSendFlags::empty());
    assert_eq!(SocketSendFlags::from_bits(0x9).unwrap().bits(), 0x9);
    assert!(SocketSendFlags::from_bits(0x2).is_none());
    assert!(SocketSendFlags::from_bits(0x19).is_none());
    assert_eq!(SocketSendFlags::from_bits_truncate(0xff).bits(), 0x9);
    assert_eq!(SocketSendFlags::from_bits_truncate(0x6).bits(), 0);
}

#[test]
fn send_flags_as_i32() {
    assert_eq!(SocketSendFlags::empty().as_i32(), 0);
    assert_eq!(SocketSendFlags::from_bits(SocketSendFlags::MSG_OOB).unwrap().as_i32(), 1);
    assert_eq!(SocketSendFlags::from_bits(SocketSendFlags::MSG_EOR).unwrap().as_i32(), 8);
    assert_eq!(SocketSendFlags::all().as_i32(), 9);
}

#[test]
fn send_flags_sets() {
    let oob = SocketSendFlags::from_bits(SocketSendFlags::MSG_OOB).unwrap();
    let eor = SocketSendFlags::from_bits(SocketSendFlags::MSG_EOR).unwrap();
    let both = oob.union(eor);
    assert_eq!(both, SocketSendFlags::all());
    assert!(both.contains(oob));
    assert!(both.contains(eor));
    assert!(!oob.contains(eor));
    assert!(oob.contains(SocketSendFlags::empty()));
    assert!(SocketSendFlags::empty().is_empty());
    assert!(!oob.is_empty());
}

#[test]
fn recv_flags_hold_only_named_bits() {
    assert_eq!(SocketRecvFlags::NONE, 0x0);
    assert_eq!(SocketRecvFlags::MSG_OOB, 0x1);
    assert_eq!(SocketRecvFlags::MSG_PEEK, 0x2);
    assert_eq!(SocketRecvFlags::MSG_WAITALL, 0x40);
    assert_eq!(SocketRecvFlags::empty().bits(), 0);
    assert_eq!(SocketRecvFlags::all().bits(), 0x43);
    assert_eq!(SocketRecvFlags::default(), SocketRecvFlags::empty());
    assert_eq!(SocketRecvFlags::from_bits(0x42).unwrap().bits(), 0x42);
    assert!(SocketRecvFlags::from_bits(0x4).is_none());
    assert_eq!(SocketRecvFlags::from_bits_truncate(u32::MAX).bits(), 0x43);
}

#[test]
fn recv_flags_as_i32() {
    assert_eq!(SocketRecvFlags::empty().as_i32(), 0);
    assert_eq!(SocketRecvFlags::from_bits(SocketRecvFlags::MSG_PEEK).unwrap().as_i32(), 2);
    assert_eq!(SocketRecvFlags::from_bits(SocketRecvFlags::MSG_WAITALL).unwrap().as_i32(), 0x40);
    assert_eq!(SocketRecvFlags::all().as_i32(), 0x43);
}

#[test]
fn recv_flags_sets() {
    let peek = SocketRecvFlags::from_bits(SocketRecvFlags::MSG_PEEK).unwrap();
    let wait = SocketRecvFlags::from_bits(SocketRecvFlags::MSG_WAITALL).unwrap();
    let both = peek.union(wait);
    assert_eq!(both.bits(), 0x42);
    assert!(both.contains(peek));
    assert!(!peek.contains(both));
    assert!(!both.is_empty());
}
