//! The three messages that the two endpoints exchange, as logical values.
//! Turning them into bytes and back is the job of the caller's codec.

use vstd::prelude::*;
use crate::rules::PromotionPiece;

verus! {

/// How a finished game ended, as told to the peer.
#[derive(Clone, Copy, Debug, PartialEq, Eq, Structural)]
pub enum EndState {
    CheckMate,
    Draw,
}

/// Sent once by the host when the connection stands.
#[derive(Clone, Debug, PartialEq, Eq)]
pub struct HandshakeMessage {
    /// Whether the receiving endpoint plays White.
    pub is_white: bool,
    /// The sender's display name.
    pub name: Option<String>,
    /// A start position; carried, not used.
    pub fen: Option<String>,
    /// Clock time; carried, not used.
    pub time: Option<u64>,
    /// Clock increment; carried, not used.
    pub inc: Option<u64>,
}

/// A square on the wire: file and rank, both counted from zero.
#[derive(Clone, Copy, Debug, PartialEq, Eq, Structural)]
pub struct Square {
    pub file: u8,
    pub rank: u8,
}

impl Square {
    /// Whether file and rank both lie on the board, that is below eight.
    pub open spec fn spec_on_board(self) -> bool {
        self.file < 8 && self.rank < 8
    }

    /// Whether file and rank both lie on the board, that is below eight.
    #[verifier::when_used_as_spec(spec_on_board)]
    pub fn on_board(self) -> (on: bool)
        ensures
            on == self.spec_on_board(),
    {
        self.file < 8 && self.rank < 8
    }
}

/// One ply on the wire.
#[derive(Clone, Copy, Debug, PartialEq, Eq, Structural)]
pub struct MoveMessage {
    pub from: Square,
    pub to: Square,
    pub forfeit: bool,
    pub offer_draw: bool,
    pub promotion: Option<PromotionPiece>,
}

/// The reply to a [`MoveMessage`].
#[derive(Clone, Copy, Debug, PartialEq, Eq, Structural)]
pub struct AckMessage {
    /// Whether the receiver accepted the move as legal.
    pub ok: bool,
    /// Set when the move ended the game.
    pub end_state: Option<EndState>,
}

/// What one read from the transport held, once the codec has looked at it.
#[derive(Clone, Debug, PartialEq, Eq)]
pub enum Incoming {
    /// Bytes that are no message of the kind asked for.
    Noise,
    Handshake(HandshakeMessage),
    Move(MoveMessage),
    Ack(AckMessage),
}

} // verus!
