//! The typed representation of a fetched game: its decoded contents, its
//! ownership, the version and digest observed at fetch time, and its
//! resolved outcome. A `Game` is an immutable snapshot, re-fetched fresh for
//! each orchestration step.

use vstd::prelude::*;

use crate::model::{Address, Digest, ObjectId, ObjectRef, Ownership};
use crate::object::GameTag;
use crate::outcome::Winner;

verus! {

/// The decoded board of a game: the object's own identifier, the marks laid
/// so far, whose turn it is, and the two players.
#[derive(Debug)]
pub struct Board {
    pub id: ObjectId,
    pub marks: Vec<u8>,
    pub turn: u8,
    pub x: Address,
    pub o: Address,
}

/// The shared-game variant's decoded contents.
#[derive(Debug)]
pub struct SharedGame {
    pub board: Board,
}

/// The owned-game variant's decoded contents.
#[derive(Debug)]
pub struct OwnedGame {
    pub board: Board,
}

/// A decoded game, tagged by the variant its object's sub-module declared.
#[derive(Debug)]
pub enum GameKind {
    Shared(SharedGame),
    Owned(OwnedGame),
}

impl GameKind {
    /// The identifier of the game object the contents were decoded from.
    pub open spec fn id_spec(&self) -> Seq<u8> {
        match self {
            GameKind::Shared(s) => s.board.id@,
            GameKind::Owned(o) => o.board.id@,
        }
    }

    /// Which variant tag these contents belong to.
    pub open spec fn tag_spec(&self) -> GameTag {
        match self {
            GameKind::Shared(_) => GameTag::Shared,
            GameKind::Owned(_) => GameTag::Owned,
        }
    }
}

/// A fetched game: decoded contents, ownership, the exact version and digest
/// observed, and the outcome resolved by the simulated call.
#[derive(Debug)]
pub struct Game {
    pub kind: GameKind,
    pub owner: Ownership,
    pub version: u64,
    pub digest: Digest,
    pub winner: Winner,
}

impl Game {
    /// The exact reference observed at fetch time, as a mutating operation
    /// must use it.
    pub fn object_ref(&self) -> (r: ObjectRef)
        ensures
            r.id@ == self.kind.id_spec(),
            r.version == self.version,
            r.digest@ == self.digest@,
    {
        let id = match &self.kind {
            GameKind::Shared(s) => s.board.id.duplicate(),
            GameKind::Owned(o) => o.board.id.duplicate(),
        };
        ObjectRef { id, version: self.version, digest: self.digest.duplicate() }
    }
}

/// Assembles the snapshot a caller works with, once the contents are decoded
/// and the outcome is resolved.
pub fn assemble_game(
    kind: GameKind,
    owner: Ownership,
    version: u64,
    digest: Digest,
    winner: Winner,
) -> (g: Game)
    ensures
        g.kind == kind,
        g.owner == owner,
        g.version == version,
        g.digest@ == digest@,
        g.winner == winner,
{
    Game { kind, owner, version, digest, winner }
}

} // verus!
