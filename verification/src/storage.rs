//! The storage-facing record types of the pipeline: indexed names and avatar
//! fingerprints, the association rows that link them to a numeric account id,
//! and the read models built from them. The relational store itself is an
//! external collaborator; the library owns the shapes and the encoding of the
//! account id, which travels as eight little-endian bytes.

use vstd::prelude::*;
use vstd::bytes::{spec_u64_from_le_bytes, spec_u64_to_le_bytes, u64_from_le_bytes, u64_to_le_bytes};
use vstd::slice::slice_subrange;

verus! {

/// An indexed display name.
#[derive(Debug, PartialEq, Eq)]
pub struct Names {
    pub id: i32,
    pub name: String,
}

/// An indexed avatar fingerprint.
#[derive(Debug, PartialEq, Eq)]
pub struct AvatarHash {
    pub id: i32,
    pub hash: String,
}

/// One avatar URL mapped to its indexed fingerprint.
#[derive(Debug, PartialEq, Eq)]
pub struct AvatarMap {
    pub url: String,
    pub avatar_hash_id: i32,
}

/// A stored association between a name/fingerprint pair and an account id.
#[derive(Debug, PartialEq, Eq)]
pub struct SteamAssociation {
    pub id: i32,
    pub names_id: i32,
    pub avatar_hash_id: i32,
    /// The account id as eight little-endian bytes.
    pub steam_id: Vec<u8>,
}

/// An association row to be written.
#[derive(Debug, PartialEq, Eq)]
pub struct NewSteamAssociation {
    pub names_id: i32,
    pub avatar_hash_id: i32,
    /// The account id as eight little-endian bytes.
    pub steam_id: Vec<u8>,
}

/// The join of an association with a leaderboard row.
#[derive(Debug, PartialEq, Eq)]
pub struct AssociatedLeaderboard {
    pub steam_association_id: i32,
    pub leaderboard_id: i32,
}

/// A player's in-game identity: current display name and avatar URL.
#[derive(Debug, PartialEq, Eq)]
pub struct PlayerIGN {
    pub name: String,
    pub avatar_url: String,
}

/// A player's resolved identity as the read API serves it.
#[derive(Debug, PartialEq, Eq)]
pub struct PlayerId {
    pub name: String,
    pub avatar: String,
    pub steam_id: u64,
}

/// One player still to be resolved: the display name and avatar fingerprint
/// to search for, and the keys of the indexed rows they came from, carried
/// through untouched so the outcome can be written back.
#[derive(Debug, PartialEq, Eq)]
pub struct UnresolvedPlayer {
    pub display_name: String,
    pub avatar_fingerprint: String,
    pub names_id: i32,
    pub avatar_hash_id: i32,
}

impl NewSteamAssociation {
    /// Builds the row to write for a resolved player: the account id is
    /// stored as its eight little-endian bytes.
    pub fn new(names_id: i32, avatar_hash_id: i32, steam_id: u64) -> (r: NewSteamAssociation)
        ensures
            r.names_id == names_id,
            r.avatar_hash_id == avatar_hash_id,
            r.steam_id@ == spec_u64_to_le_bytes(steam_id),
    {
        NewSteamAssociation { names_id, avatar_hash_id, steam_id: u64_to_le_bytes(steam_id) }
    }
}

impl SteamAssociation {
    /// Reads the stored account id back out of its little-endian bytes;
    /// `None` when fewer than eight bytes were stored. Extra trailing bytes
    /// are ignored, as the original reader ignored them.
    pub fn get_steam_id(&self) -> (r: Option<u64>)
        ensures
            match r {
                Some(v) => self.steam_id@.len() >= 8 && v == spec_u64_from_le_bytes(
                    self.steam_id@.subrange(0, 8),
                ),
                None => self.steam_id@.len() < 8,
            },
    {
        if self.steam_id.len() < 8 {
            return None;
        }
        let head = slice_subrange(self.steam_id.as_slice(), 0, 8);
        Some(u64_from_le_bytes(head))
    }
}

/// The association encoding round-trips: a row built for an account id reads
/// back as exactly that id.
pub proof fn lemma_association_round_trip(steam_id: u64)
    ensures
        spec_u64_from_le_bytes(spec_u64_to_le_bytes(steam_id).subrange(0, 8)) == steam_id,
{
    vstd::bytes::lemma_auto_spec_u64_to_from_le_bytes();
    assert(spec_u64_to_le_bytes(steam_id).subrange(0, 8) =~= spec_u64_to_le_bytes(steam_id));
}

} // verus!
