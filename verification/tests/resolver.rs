//! Peer resolution rules.

use clipflow::peers::{
    map_resolved, resolve_peer, PeerError, PeerRef, ResolvedKind, ResolvedPeerInfo,
};

#[test]
fn small_group_resolves_locally() {
    // negative but outside the large-channel range: no lookup needed
    let r = resolve_peer(-12345, None, None);
    assert_eq!(r, Ok(PeerRef::Chat { chat_id: 12345 }));
}

#[test]
fn channel_range_needs_username() {
    // -100... is the large-channel shape, so a username is mandatory
    let r = resolve_peer(-1001234567, None, None);
    assert_eq!(r, Err(PeerError::NoUsername));
    let name = "somechannel".to_string();
    let r = resolve_peer(-1001234567, Some(&name), None);
    assert_eq!(r, Err(PeerError::LookupFailed));
}

#[test]
fn positive_identity_needs_username() {
    let r = resolve_peer(55, None, None);
    assert_eq!(r, Err(PeerError::NoUsername));
}

#[test]
fn lookup_maps_user_with_hash() {
    let info = ResolvedPeerInfo {
        peer: ResolvedKind::User { user_id: 9 },
        users: vec![(7, Some(111)), (9, Some(222))],
        chats: vec![],
    };
    assert_eq!(map_resolved(&info), Ok(PeerRef::User { user_id: 9, access_hash: 222 }));
    let name = "someone".to_string();
    assert_eq!(
        resolve_peer(9, Some(&name), Some(&info)),
        Ok(PeerRef::User { user_id: 9, access_hash: 222 })
    );
}

#[test]
fn lookup_without_hash_fails() {
    let info = ResolvedPeerInfo {
        peer: ResolvedKind::User { user_id: 9 },
        users: vec![(9, None)],
        chats: vec![],
    };
    assert_eq!(map_resolved(&info), Err(PeerError::MissingAccessHash));
}

#[test]
fn lookup_of_absent_entity_fails() {
    let info = ResolvedPeerInfo {
        peer: ResolvedKind::Channel { channel_id: 4 },
        users: vec![],
        chats: vec![(5, Some(1))],
    };
    assert_eq!(map_resolved(&info), Err(PeerError::UnmappedPeer));
}

#[test]
fn lookup_maps_channel_and_group() {
    let info = ResolvedPeerInfo {
        peer: ResolvedKind::Channel { channel_id: 4 },
        users: vec![],
        chats: vec![(4, Some(99))],
    };
    assert_eq!(map_resolved(&info), Ok(PeerRef::Channel { channel_id: 4, access_hash: 99 }));
    let info = ResolvedPeerInfo {
        peer: ResolvedKind::Chat { chat_id: 3 },
        users: vec![],
        chats: vec![],
    };
    assert_eq!(map_resolved(&info), Ok(PeerRef::Chat { chat_id: 3 }));
}
