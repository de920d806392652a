use hydrabadger::{InAddr, OutAddr, SocketAddr, SocketAddrV4, SocketAddrV6};

fn localhost(port: u16) -> SocketAddr {
    SocketAddr::V4(SocketAddrV4 { ip: 0x7f00_0001, port })
}

#[test]
fn addresses_lead_to_their_socket_address() {
    assert!(*InAddr(localhost(3000)) == localhost(3000));
    assert!(*OutAddr(localhost(3001)) == localhost(3001));
}

#[test]
fn addresses_are_compared_as_a_whole() {
    let v6 = SocketAddr::V6(SocketAddrV6 { ip: 1, port: 3000, flowinfo: 0, scope_id: 0 });
    let scoped = SocketAddr::V6(SocketAddrV6 { ip: 1, port: 3000, flowinfo: 0, scope_id: 2 });
    assert!(InAddr(localhost(3000)) == InAddr(localhost(3000)));
    assert!(InAddr(localhost(3000)) != InAddr(localhost(3001)));
    assert!(InAddr(localhost(3000)) != InAddr(v6));
    assert!(OutAddr(v6) == OutAddr(v6));
    assert!(OutAddr(v6) != OutAddr(scoped));
}

#[test]
fn address_texts_name_their_side() {
    assert_eq!(InAddr::display("127.0.0.1:3000"), "InAddr(127.0.0.1:3000)");
    assert_eq!(OutAddr::display("[::1]:3000"), "OutAddr([::1]:3000)");
    assert_eq!(InAddr::display(""), "InAddr()");
}
