//! Peer resolution: turning a numeric recipient identity and an optional
//! display name into the addressing structure the persistent transport
//! needs.  A small-group identity resolves locally; anything else needs a
//! username lookup, whose answer — modelled here with plain values — is
//! mapped to an address carrying the access credential.

use vstd::prelude::*;

verus! {

/// An addressing structure for the persistent transport.
#[derive(Clone, Copy, Debug, PartialEq, Eq, Structural)]
pub enum PeerRef {
    User { user_id: i64, access_hash: i64 },
    Channel { channel_id: i64, access_hash: i64 },
    Chat { chat_id: i64 },
}

/// Why a recipient could not be addressed.  Each is terminal for the
/// delivery attempt: peer resolution is never retried.
#[derive(Clone, Copy, Debug, PartialEq, Eq, Structural)]
pub enum PeerError {
    /// The recipient needs a username lookup but has no display name.
    NoUsername,
    /// The username lookup itself failed.
    LookupFailed,
    /// The lookup answered without the required access credential.
    MissingAccessHash,
    /// The lookup's answer named an entity its lists do not carry.
    UnmappedPeer,
}

/// The kind of entity a username lookup says the name belongs to.
#[derive(Clone, Copy, Debug, PartialEq, Eq, Structural)]
pub enum ResolvedKind {
    User { user_id: i64 },
    Channel { channel_id: i64 },
    Chat { chat_id: i64 },
}

/// What a username lookup returned: the named entity, and the identity and
/// optional access credential of each user and channel the answer carried.
pub struct ResolvedPeerInfo {
    pub peer: ResolvedKind,
    pub users: Vec<(i64, Option<i64>)>,
    pub chats: Vec<(i64, Option<i64>)>,
}

/// Leading three digits of a positive number.
pub open spec fn spec_lead3(n: int) -> int
    decreases n,
{
    if n >= 1000 {
        spec_lead3(n / 10)
    } else {
        n
    }
}

/// A negative identity has the large-channel shape when its decimal
/// magnitude begins with the digits one-zero-zero.
pub open spec fn spec_channel_shaped(chat_id: int) -> bool {
    chat_id < 0 && spec_lead3(-chat_id) == 100
}

/// A small-group identity: negative, but not in the large-channel range.
pub open spec fn spec_group_shaped(chat_id: int) -> bool {
    chat_id < 0 && !spec_channel_shaped(chat_id)
}

/// Decides whether a negative identity's magnitude begins with
/// one-zero-zero.
fn magnitude_starts_100(magnitude: i64) -> (r: bool)
    requires
        magnitude >= 0,
    ensures
        r == (spec_lead3(magnitude as int) == 100),
{
    let mut m = magnitude;
    while m >= 1000
        invariant
            m >= 0,
            spec_lead3(magnitude as int) == spec_lead3(m as int),
        decreases m,
    {
        m = m / 10;
    }
    m == 100
}

/// First position at or after `i` whose entry carries the identity, or -1.
pub open spec fn first_entry_from(entries: Seq<(i64, Option<i64>)>, id: int, i: int) -> int
    decreases entries.len() - i,
{
    if !(0 <= i <= entries.len()) {
        -1
    } else if i == entries.len() {
        -1
    } else if entries[i].0 == id {
        i
    } else {
        first_entry_from(entries, id, i + 1)
    }
}

/// Looks an identity up in a lookup answer's entity list.
fn find_entry(entries: &Vec<(i64, Option<i64>)>, id: i64) -> (r: Option<Option<i64>>)
    ensures
        ({
            let j = first_entry_from(entries@, id as int, 0);
            match r {
                Some(hash) => j >= 0 && entries@[j].1 == hash,
                None => j == -1,
            }
        }),
{
    let n = entries.len();
    let mut i: usize = 0;
    while i < n
        invariant
            i <= n,
            n == entries@.len(),
            first_entry_from(entries@, id as int, 0) == first_entry_from(
                entries@,
                id as int,
                i as int,
            ),
        decreases n - i,
    {
        let (key, hash) = entries[i];
        if key == id {
            assert(first_entry_from(entries@, id as int, 0) == i);
            return Some(hash);
        }
        i = i + 1;
    }
    None
}

/// The address a lookup answer maps to: the named entity's identity joined
/// with the access credential found in the matching list, a group needing
/// none; an entity whose credential is absent, or absent from the lists, is
/// an error.
pub open spec fn spec_map_resolved(info: ResolvedPeerInfo) -> Result<PeerRef, PeerError> {
    match info.peer {
        ResolvedKind::User { user_id } => {
            let j = first_entry_from(info.users@, user_id as int, 0);
            if j >= 0 {
                match info.users@[j].1 {
                    Some(h) => Ok(PeerRef::User { user_id, access_hash: h }),
                    None => Err(PeerError::MissingAccessHash),
                }
            } else {
                Err(PeerError::UnmappedPeer)
            }
        },
        ResolvedKind::Channel { channel_id } => {
            let j = first_entry_from(info.chats@, channel_id as int, 0);
            if j >= 0 {
                match info.chats@[j].1 {
                    Some(h) => Ok(PeerRef::Channel { channel_id, access_hash: h }),
                    None => Err(PeerError::MissingAccessHash),
                }
            } else {
                Err(PeerError::UnmappedPeer)
            }
        },
        ResolvedKind::Chat { chat_id } => Ok(PeerRef::Chat { chat_id }),
    }
}

/// Maps a username lookup's answer to an address.
pub fn map_resolved(info: &ResolvedPeerInfo) -> (r: Result<PeerRef, PeerError>)
    ensures
        r == spec_map_resolved(*info),
{
    match info.peer {
        ResolvedKind::User { user_id } => {
            match find_entry(&info.users, user_id) {
                Some(Some(h)) => Ok(PeerRef::User { user_id, access_hash: h }),
                Some(None) => Err(PeerError::MissingAccessHash),
                None => Err(PeerError::UnmappedPeer),
            }
        },
        ResolvedKind::Channel { channel_id } => {
            match find_entry(&info.chats, channel_id) {
                Some(Some(h)) => Ok(PeerRef::Channel { channel_id, access_hash: h }),
                Some(None) => Err(PeerError::MissingAccessHash),
                None => Err(PeerError::UnmappedPeer),
            }
        },
        ResolvedKind::Chat { chat_id } => Ok(PeerRef::Chat { chat_id }),
    }
}

/// The address of a recipient: a small-group identity resolves by
/// magnitude with no lookup; otherwise a username is mandatory and the
/// lookup's answer (`None` when the lookup failed or never ran) decides.
pub open spec fn spec_resolve_peer(
    chat_id: int,
    has_username: bool,
    lookup: Option<ResolvedPeerInfo>,
) -> Result<PeerRef, PeerError> {
    if spec_group_shaped(chat_id) {
        Ok(PeerRef::Chat { chat_id: (-chat_id) as i64 })
    } else if !has_username {
        Err(PeerError::NoUsername)
    } else {
        match lookup {
            Some(info) => spec_map_resolved(info),
            None => Err(PeerError::LookupFailed),
        }
    }
}

/// Resolves a recipient into an address.  `lookup` is what the username
/// lookup answered, where one was made; direct dialogs are unavailable to
/// the automated account, so without a username nothing else can be done.
pub fn resolve_peer(
    chat_id: i64,
    username: Option<&String>,
    lookup: Option<&ResolvedPeerInfo>,
) -> (r: Result<PeerRef, PeerError>)
    requires
        chat_id > i64::MIN,
    ensures
        r == spec_resolve_peer(
            chat_id as int,
            username is Some,
            match lookup {
                Some(info) => Some(*info),
                None => None,
            },
        ),
{
    if chat_id < 0 {
        let magnitude = -chat_id;
        if !magnitude_starts_100(magnitude) {
            return Ok(PeerRef::Chat { chat_id: magnitude });
        }
    }
    if username.is_none() {
        return Err(PeerError::NoUsername);
    }
    match lookup {
        Some(info) => map_resolved(info),
        None => Err(PeerError::LookupFailed),
    }
}

} // verus!
