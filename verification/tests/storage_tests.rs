use leaderboard_resolver::storage::{NewSteamAssociation, SteamAssociation, UnresolvedPlayer};

#[test]
fn association_encoding_round_trips() {
    let id: u64 = 76561198020520825;
    let new_row = NewSteamAssociation::new(7, 9, id);
    assert_eq!(new_row.names_id, 7);
    assert_eq!(new_row.avatar_hash_id, 9);
    assert_eq!(new_row.steam_id.len(), 8);

    let stored = SteamAssociation {
        id: 1,
        names_id: new_row.names_id,
        avatar_hash_id: new_row.avatar_hash_id,
        steam_id: new_row.steam_id.clone(),
    };
    assert_eq!(stored.get_steam_id(), Some(id));
}

#[test]
fn association_bytes_are_little_endian() {
    let new_row = NewSteamAssociation::new(0, 0, 0x0102030405060708);
    assert_eq!(new_row.steam_id, vec![0x08, 0x07, 0x06, 0x05, 0x04, 0x03, 0x02, 0x01]);
}

#[test]
fn short_stored_bytes_read_as_none() {
    let stored = SteamAssociation { id: 1, names_id: 2, avatar_hash_id: 3, steam_id: vec![1, 2, 3] };
    assert_eq!(stored.get_steam_id(), None);
}

#[test]
fn unresolved_player_carries_its_correlation_keys() {
    let p = UnresolvedPlayer {
        display_name: "Orbnet".to_string(),
        avatar_fingerprint: "90588b809dab3942f510d8d438779fbcb20a7b29".to_string(),
        names_id: 11,
        avatar_hash_id: 13,
    };
    assert_eq!(p.names_id, 11);
    assert_eq!(p.avatar_hash_id, 13);
}
