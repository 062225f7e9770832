use nix::sys::socket::{InetAddr, IpAddr};
use raw_socket::{resolve, RawSocketError};

#[test]
fn resolve_takes_the_first_candidate() {
    assert_eq!(resolve(vec![7u32, 8, 9]).unwrap(), 7);
    assert_eq!(resolve(vec![9u32, 8, 7]).unwrap(), 9);
}

#[test]
fn resolve_takes_the_only_candidate() {
    assert_eq!(resolve(vec!["only"]).unwrap(), "only");
}

#[test]
fn resolve_keeps_the_order_of_resolution() {
    let v4 = InetAddr::new(IpAddr::new_v4(192, 0, 2, 1), 7);
    let v6 = InetAddr::new(IpAddr::new_v6(0x2001, 0xdb8, 0, 0, 0, 0, 0, 1), 7);
    assert_eq!(resolve(vec![v4, v6]).unwrap(), v4);
    assert_eq!(resolve(vec![v6, v4]).unwrap(), v6);
}

#[test]
fn resolve_without_candidates_fails() {
    let none: Vec<InetAddr> = Vec::new();
    let failure = resolve(none).unwrap_err();
    assert!(matches!(failure, RawSocketError::AddressResolutionFailure));
}
