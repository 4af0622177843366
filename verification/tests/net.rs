use trampantojo::net::{contains, forwarded_entries, origin_of, resolve_client_ip, IpNetwork, IpValue};

fn v4(a: u8, b: u8, c: u8, d: u8) -> IpValue {
    IpValue::V4(u32::from_be_bytes([a, b, c, d]))
}

fn net4(a: u8, b: u8, c: u8, d: u8, prefix_len: u8) -> IpNetwork {
    IpNetwork::V4 { addr: u32::from_be_bytes([a, b, c, d]), prefix_len }
}

fn trusted() -> Vec<IpNetwork> {
    vec![net4(127, 0, 0, 0, 8), net4(10, 0, 0, 0, 8), net4(192, 168, 0, 0, 16)]
}

#[test]
fn networks_contain_their_range() {
    assert!(contains(net4(10, 0, 0, 0, 8), v4(10, 255, 1, 2)));
    assert!(!contains(net4(10, 0, 0, 0, 8), v4(11, 0, 0, 0)));
    assert!(contains(net4(172, 16, 0, 0, 12), v4(172, 31, 255, 255)));
    assert!(!contains(net4(172, 16, 0, 0, 12), v4(172, 32, 0, 0)));
    assert!(contains(net4(0, 0, 0, 0, 0), v4(8, 8, 8, 8)));
    assert!(contains(net4(1, 2, 3, 4, 32), v4(1, 2, 3, 4)));
    assert!(!contains(net4(1, 2, 3, 4, 32), v4(1, 2, 3, 5)));
    let loopback6 = IpNetwork::V6 { addr6: 1, prefix_len6: 128 };
    assert!(contains(loopback6, IpValue::V6(1)));
    assert!(!contains(loopback6, v4(0, 0, 0, 1)));
    assert!(!contains(net4(0, 0, 0, 0, 0), IpValue::V6(1)));
}

#[test]
fn forwarded_entries_are_split_and_trimmed() {
    assert_eq!(
        forwarded_entries(" 1.1.1.1 , 10.0.0.2,, x "),
        vec!["1.1.1.1", "10.0.0.2", "", "x"]
    );
    assert_eq!(forwarded_entries(""), vec![""]);
}

#[test]
fn origin_skips_trusted_proxies_from_the_end() {
    let nets = trusted();
    let entries = vec![Some(v4(8, 8, 8, 8)), Some(v4(9, 9, 9, 9)), Some(v4(10, 0, 0, 3))];
    assert_eq!(origin_of(&entries, &nets), Some(v4(9, 9, 9, 9)));
    let only_proxies = vec![Some(v4(10, 0, 0, 3)), Some(v4(127, 0, 0, 1))];
    assert_eq!(origin_of(&only_proxies, &nets), None);
    let garbage = vec![Some(v4(8, 8, 8, 8)), None, Some(v4(10, 0, 0, 3))];
    assert_eq!(origin_of(&garbage, &nets), None);
}

#[test]
fn client_behind_trusted_proxy() {
    let nets = trusted();
    let peer = v4(10, 0, 0, 1);
    let entries = vec![Some(v4(200, 1, 1, 1))];
    assert_eq!(resolve_client_ip(peer, Some(&entries), &nets), v4(200, 1, 1, 1));
    assert_eq!(resolve_client_ip(peer, None, &nets), peer);
    let none_found = vec![None];
    assert_eq!(resolve_client_ip(peer, Some(&none_found), &nets), peer);
}

#[test]
fn untrusted_peer_is_the_client() {
    let nets = trusted();
    let peer = v4(8, 8, 4, 4);
    let entries = vec![Some(v4(200, 1, 1, 1))];
    assert_eq!(resolve_client_ip(peer, Some(&entries), &nets), peer);
}
