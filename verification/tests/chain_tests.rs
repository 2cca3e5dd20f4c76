use nftnl::chain::{Chain, Hook, Policy};
use nftnl::error::ErrorKind;
use nftnl::msg::{MsgType, NlMsg};
use nftnl::table::{ProtoFamily, Table};

fn filter_table() -> Table {
    Table::new(ProtoFamily::Ipv4, b"filter".to_vec()).unwrap()
}

#[test]
fn chain_new_round_trips_name() {
    let table = filter_table();
    let chain = Chain::new(b"input".to_vec(), &table).unwrap();
    assert_eq!(chain.get_name(), &b"input".to_vec());
}

#[test]
fn chain_table_matches_originating_table() {
    let table = filter_table();
    let chain = Chain::new(b"input".to_vec(), &table).unwrap();
    let back = chain.get_table();
    assert_eq!(back.name(), table.name());
    assert_eq!(back.family(), table.family());
}

#[test]
fn chain_new_accepts_longest_name() {
    let table = filter_table();
    let name = vec![b'c'; 255];
    let chain = Chain::new(name.clone(), &table).unwrap();
    assert_eq!(chain.get_name(), &name);
}

#[test]
fn chain_new_rejects_overlong_name() {
    let table = filter_table();
    let r = Chain::new(vec![b'c'; 256], &table);
    assert!(matches!(r, Err(ErrorKind::InvalidName)));
}

#[test]
fn chain_new_rejects_empty_name() {
    let table = filter_table();
    let r = Chain::new(Vec::new(), &table);
    assert!(matches!(r, Err(ErrorKind::InvalidName)));
}

#[test]
fn chain_new_rejects_embedded_null() {
    let table = filter_table();
    let r = Chain::new(b"in\0put".to_vec(), &table);
    assert!(matches!(r, Err(ErrorKind::InvalidName)));
}

#[test]
fn hook_wire_values_match_protocol() {
    assert_eq!(Hook::PreRouting.wire() as libc::c_int, libc::NF_INET_PRE_ROUTING);
    assert_eq!(Hook::In.wire() as libc::c_int, libc::NF_INET_LOCAL_IN);
    assert_eq!(Hook::Forward.wire() as libc::c_int, libc::NF_INET_FORWARD);
    assert_eq!(Hook::Out.wire() as libc::c_int, libc::NF_INET_LOCAL_OUT);
    assert_eq!(Hook::PostRouting.wire() as libc::c_int, libc::NF_INET_POST_ROUTING);
}

#[test]
fn policy_wire_values_match_protocol() {
    assert_eq!(Policy::Accept.wire() as libc::c_int, libc::NF_ACCEPT);
    assert_eq!(Policy::Drop.wire() as libc::c_int, libc::NF_DROP);
}

#[test]
fn base_chain_message_exact_bytes() {
    let table = filter_table();
    let mut chain = Chain::new(b"input".to_vec(), &table).unwrap();
    chain.register_hook(Hook::In, 0);
    chain.set_policy(Policy::Accept);
    let mut buf = Vec::new();
    chain.write(&mut buf, 42, MsgType::Add);
    let expected: Vec<u8> = vec![
        72, 0, 0, 0, // total length
        3, 10, // message type: NFT_MSG_NEWCHAIN under the nftables subsystem
        5, 0, // flags: request + ack
        42, 0, 0, 0, // sequence number
        0, 0, 0, 0, // port id
        2, 0, 0, 0, // family IPv4, version, resource id
        11, 0, 1, 0, b'f', b'i', b'l', b't', b'e', b'r', 0, 0, // table name
        10, 0, 3, 0, b'i', b'n', b'p', b'u', b't', 0, 0, 0, // chain name
        20, 0, 4, 128, // nested hook attribute
        8, 0, 1, 0, 0, 0, 0, 1, // hook number: local in
        8, 0, 2, 0, 0, 0, 0, 0, // priority 0
        8, 0, 5, 0, 0, 0, 0, 1, // policy: accept
    ];
    assert_eq!(buf, expected);
    assert_eq!(buf[4] as libc::c_int, libc::NFT_MSG_NEWCHAIN);
    assert_eq!(buf[5] as libc::c_int, libc::NFNL_SUBSYS_NFTABLES);
    assert_eq!(
        buf[6] as libc::c_int & libc::NLM_F_ACK,
        libc::NLM_F_ACK,
    );
}

#[test]
fn regular_chain_delete_exact_bytes() {
    let table = filter_table();
    let chain = Chain::new(b"helper".to_vec(), &table).unwrap();
    let mut buf = Vec::new();
    chain.write(&mut buf, 42, MsgType::Del);
    let expected: Vec<u8> = vec![
        44, 0, 0, 0, // total length
        5, 10, // message type: NFT_MSG_DELCHAIN under the nftables subsystem
        5, 0, // flags: request + ack
        42, 0, 0, 0, // sequence number
        0, 0, 0, 0, // port id
        2, 0, 0, 0, // family IPv4, version, resource id
        11, 0, 1, 0, b'f', b'i', b'l', b't', b'e', b'r', 0, 0, // table name
        11, 0, 3, 0, b'h', b'e', b'l', b'p', b'e', b'r', 0, 0, // chain name
    ];
    assert_eq!(buf, expected);
    assert_eq!(buf[4] as libc::c_int, libc::NFT_MSG_DELCHAIN);
}

#[test]
fn unhooked_chain_encodes_no_hook_or_policy_fields() {
    let table = Table::new(ProtoFamily::Ipv6, b"t".to_vec()).unwrap();
    let chain = Chain::new(b"c".to_vec(), &table).unwrap();
    let mut buf = Vec::new();
    chain.write(&mut buf, 1, MsgType::Add);
    let expected: Vec<u8> = vec![
        36, 0, 0, 0, 3, 10, 5, 0, 1, 0, 0, 0, 0, 0, 0, 0, 10, 0, 0, 0, //
        6, 0, 1, 0, b't', 0, 0, 0, // table name
        6, 0, 3, 0, b'c', 0, 0, 0, // chain name, nothing further
    ];
    assert_eq!(buf, expected);
}

#[test]
fn policy_field_appears_without_hook_registration() {
    let table = Table::new(ProtoFamily::Ipv6, b"t".to_vec()).unwrap();
    let mut chain = Chain::new(b"c".to_vec(), &table).unwrap();
    chain.set_policy(Policy::Drop);
    let mut buf = Vec::new();
    chain.write(&mut buf, 1, MsgType::Add);
    let expected: Vec<u8> = vec![
        44, 0, 0, 0, 3, 10, 5, 0, 1, 0, 0, 0, 0, 0, 0, 0, 10, 0, 0, 0, //
        6, 0, 1, 0, b't', 0, 0, 0, // table name
        6, 0, 3, 0, b'c', 0, 0, 0, // chain name
        8, 0, 5, 0, 0, 0, 0, 0, // policy: drop, no hook attribute before it
    ];
    assert_eq!(buf, expected);
}

#[test]
fn hook_priority_is_forwarded_verbatim() {
    let table = Table::new(ProtoFamily::Ipv6, b"t".to_vec()).unwrap();
    let mut chain = Chain::new(b"c".to_vec(), &table).unwrap();
    chain.register_hook(Hook::PostRouting, u32::MAX);
    let mut buf = Vec::new();
    chain.write(&mut buf, 1, MsgType::Add);
    let expected: Vec<u8> = vec![
        56, 0, 0, 0, 3, 10, 5, 0, 1, 0, 0, 0, 0, 0, 0, 0, 10, 0, 0, 0, //
        6, 0, 1, 0, b't', 0, 0, 0, // table name
        6, 0, 3, 0, b'c', 0, 0, 0, // chain name
        20, 0, 4, 128, // nested hook attribute
        8, 0, 1, 0, 0, 0, 0, 4, // hook number: post routing
        8, 0, 2, 0, 255, 255, 255, 255, // priority, untouched
    ];
    assert_eq!(buf, expected);
}

#[test]
fn encoding_twice_is_byte_identical() {
    let table = filter_table();
    let mut chain = Chain::new(b"input".to_vec(), &table).unwrap();
    chain.register_hook(Hook::Forward, 100);
    chain.set_policy(Policy::Drop);
    let mut first = Vec::new();
    let mut second = Vec::new();
    chain.write(&mut first, 9, MsgType::Add);
    chain.write(&mut second, 9, MsgType::Add);
    assert_eq!(first, second);
}

#[test]
fn header_family_follows_owning_table() {
    for (family, wire) in [
        (ProtoFamily::Ipv4, 2u8),
        (ProtoFamily::Ipv6, 10u8),
        (ProtoFamily::Bridge, 7u8),
    ] {
        let table = Table::new(family, b"t".to_vec()).unwrap();
        let chain = Chain::new(b"c".to_vec(), &table).unwrap();
        let mut buf = Vec::new();
        chain.write(&mut buf, 3, MsgType::Add);
        assert_eq!(buf[16], wire);
    }
}

#[test]
fn release_frees_exactly_once() {
    let table = filter_table();
    let mut chain = Chain::new(b"input".to_vec(), &table).unwrap();
    assert!(chain.release());
    assert!(!chain.release());
    assert!(!chain.release());
}
