//! Wire-facing data model and the admission decisions made over it.
//!
//! The transport and codec are external collaborators: the code around the
//! library decodes a connection's first frame into a [`FirstFrame`] and the
//! decisions here say, exactly, what happens for each shape of frame.

use vstd::prelude::*;

verus! {

/// Role tag a peer reports in its identification frame when it could not be
/// identified (missing or non-binary first frame).
pub const WHO_AM_I_UNKNOWN: u8 = 0;

/// Role tag a peer reports in its identification frame when it is a game
/// client; only such peers are admitted to a match.
pub const WHO_AM_I_CLIENT: u8 = 1;

/// Number of entity ids reserved for each player.
pub const ENTITY_RANGE: u16 = 500;

/// Spawn position handed to every admitted player.
pub const SPAWN_X: i32 = 256;

/// Spawn position handed to every admitted player.
pub const SPAWN_Y: i32 = 256;

/// A position on the generated world grid.
#[derive(Clone, Copy, Debug, PartialEq, Eq, Structural)]
pub struct Position {
    pub x: i32,
    pub y: i32,
}

/// One seated player: a stable id (equal to its registry slot index), its
/// spawn position, and the estimated offset between server and client clocks
/// in microseconds (zero when clock sync failed).  The player's outbound
/// network sink is owned by the transport layer, keyed by this id.
#[derive(Clone, Copy, Debug, PartialEq, Eq, Structural)]
pub struct Player {
    pub id: u8,
    pub position: Position,
    pub clock_diff: i64,
}

/// How a match is serialized on the wire; carried as configuration and handed
/// to each player's receive task.
#[derive(Clone, Copy, Debug, PartialEq, Eq, Structural)]
pub enum SerializationType {
    Binary,
    Json,
}

/// An event carried by the fan-in queue from a per-player receive task into
/// the match loop, tagged with the id of the player it came from: an inbound
/// application message (raw payload bytes), or a notification that the
/// player's stream closed.
#[derive(Debug)]
pub enum ConnectionMessage {
    Msg(u8, Vec<u8>),
    Close(u8),
}

/// The start message sent to one player once the match is ready: the base of
/// its reserved entity-id range, its spawn position, the per-player entity
/// budget, and the world seed from which the client reproduces world state.
#[derive(Clone, Copy, Debug, PartialEq, Eq, Structural)]
pub struct PlayerStartMsg {
    pub entity_id: usize,
    pub position: Position,
    pub range: u16,
    pub seed: u32,
}

/// Errors a match can report.  The first two classify a rejected handshake;
/// the last two are match-fatal conditions on the lobby handoff channel.
#[derive(Clone, Copy, Debug, PartialEq, Eq, Structural)]
pub enum GameError {
    /// The first frame decoded to some message other than an identification.
    ExpectedWhoami,
    /// The first frame was binary but did not decode.
    MalformedFrame,
    /// The lobby handoff channel closed while the match was still admitting.
    LobbyClosed,
    /// The lobby handoff channel delivered an event of an unexpected kind.
    UnexpectedLobbyMessage,
}

/// A candidate connection's first frame, as the codec saw it.
#[derive(Clone, Copy, Debug, PartialEq, Eq, Structural)]
pub enum FirstFrame {
    /// A binary frame that decoded to an identification carrying this role.
    Whoami(u8),
    /// A binary frame that decoded to some other message.
    OtherMessage,
    /// A binary frame that did not decode.
    Malformed,
    /// A frame of a non-binary kind.
    NotBinary,
    /// No frame at all: the stream closed or failed before sending one.
    Absent,
}

/// What the identification check returns for each shape of first frame.
pub open spec fn spec_whoami(frame: FirstFrame) -> Result<u8, GameError> {
    match frame {
        FirstFrame::Whoami(role) => Ok(role),
        FirstFrame::OtherMessage => Err(GameError::ExpectedWhoami),
        FirstFrame::Malformed => Err(GameError::MalformedFrame),
        FirstFrame::NotBinary => Ok(WHO_AM_I_UNKNOWN),
        FirstFrame::Absent => Ok(WHO_AM_I_UNKNOWN),
    }
}

/// Classify a candidate connection's first frame: the reported role on an
/// identification frame, the unknown role when no usable frame arrived, and
/// an error when the peer spoke first with something else.
pub fn whoami(frame: FirstFrame) -> (r: Result<u8, GameError>)
    ensures
        r == spec_whoami(frame),
{
    match frame {
        FirstFrame::Whoami(role) => Ok(role),
        FirstFrame::OtherMessage => Err(GameError::ExpectedWhoami),
        FirstFrame::Malformed => Err(GameError::MalformedFrame),
        FirstFrame::NotBinary => Ok(WHO_AM_I_UNKNOWN),
        FirstFrame::Absent => Ok(WHO_AM_I_UNKNOWN),
    }
}

/// Admission decision: a connection is seated exactly when its first frame
/// identified it as a game client.
pub fn is_client(r: &Result<u8, GameError>) -> (b: bool)
    ensures
        b == (*r == Ok::<u8, GameError>(WHO_AM_I_CLIENT)),
{
    match r {
        Ok(role) => *role == WHO_AM_I_CLIENT,
        Err(_) => false,
    }
}

/// Clock sync is best effort: a failed sync falls back to a zero offset
/// rather than failing admission.
pub fn clock_offset_or_zero(sync: Option<i64>) -> (d: i64)
    ensures
        d == (match sync {
            Some(v) => v,
            None => 0i64,
        }),
{
    match sync {
        Some(v) => v,
        None => 0,
    }
}

/// The start message owed to one seated player: its entity-id range base is
/// `id * ENTITY_RANGE`, so ranges of distinct players never overlap.
pub open spec fn spec_start_msg(player: Player, seed: u32) -> PlayerStartMsg {
    PlayerStartMsg {
        entity_id: ((player.id as usize) * (ENTITY_RANGE as usize)) as usize,
        position: player.position,
        range: ENTITY_RANGE,
        seed,
    }
}

/// The entity-id ranges handed to two different players never overlap: each
/// player owns exactly `[id * ENTITY_RANGE, id * ENTITY_RANGE + ENTITY_RANGE)`.
pub proof fn lemma_entity_ranges_disjoint(a: Player, b: Player, seed: u32)
    requires
        a.id != b.id,
    ensures
        spec_start_msg(a, seed).entity_id + ENTITY_RANGE <= spec_start_msg(b, seed).entity_id
            || spec_start_msg(b, seed).entity_id + ENTITY_RANGE <= spec_start_msg(
            a,
            seed,
        ).entity_id,
{
    assert((a.id as int) * 500 + 500 <= (b.id as int) * 500 || (b.id as int) * 500 + 500 <= (
    a.id as int) * 500) by (nonlinear_arith)
        requires
            a.id != b.id,
    ;
}

/// Build the start message for one seated player.
pub fn create_player_start_msg(player: &Player, seed: u32) -> (m: PlayerStartMsg)
    ensures
        m == spec_start_msg(*player, seed),
{
    proof {
        assert((player.id as usize) * (ENTITY_RANGE as usize) <= 255 * 500) by (nonlinear_arith)
            requires
                player.id <= 255,
                ENTITY_RANGE == 500,
        ;
    }
    PlayerStartMsg {
        entity_id: (player.id as usize) * (ENTITY_RANGE as usize),
        position: player.position,
        range: ENTITY_RANGE,
        seed,
    }
}

} // verus!
