//! The handshake and the exchange of one ply, as far as they decide
//! anything: which message to write, and what a buffer that was read means
//! to the one who waits for it. The caller owns the transport; it writes
//! what these functions build, and reads until they accept what came.

use vstd::prelude::*;
use vstd::string::*;
use crate::message::{AckMessage, EndState, HandshakeMessage, Incoming, MoveMessage, Square};
use crate::rules::{Colour, GameState, Move, Position, PromotionPiece};

verus! {

/// The address on which the host listens, without the port.
pub const LOCAL_HOST: &'static str = "127.0.0.1";

/// The terminal state to announce for an engine state: a finished game is
/// announced as checkmate, an unfinished one not at all.
pub open spec fn end_state_of(state: GameState) -> Option<EndState> {
    match state {
        GameState::GameOver => Some(EndState::CheckMate),
        GameState::Active => None,
        GameState::Check => None,
    }
}

/// The terminal state to announce to the peer for the state that the rules
/// engine reports.
pub fn chess_lib_state_to_network_state(state: GameState) -> (end: Option<EndState>)
    ensures
        end == end_state_of(state),
{
    match state {
        GameState::Active => None,
        GameState::GameOver => Some(EndState::CheckMate),
        GameState::Check => None,
    }
}

/// The square of a position as it goes on the wire.
pub open spec fn wire_square(position: Position) -> Square {
    Square { file: position.file, rank: position.rank }
}

/// The message that carries `mv` with the given promotion choice: the two
/// squares by file and rank, no forfeit, no draw offer.
pub open spec fn move_message(mv: Move, promotion: Option<PromotionPiece>) -> MoveMessage {
    MoveMessage {
        from: wire_square(mv.from),
        to: wire_square(mv.to),
        forfeit: false,
        offer_draw: false,
        promotion,
    }
}

/// First half of submitting a move: the message to write to the transport.
/// The caller then reads until [`await_ack`] accepts a buffer.
pub fn do_move(mv: Move, promotion: Option<PromotionPiece>) -> (to_write: MoveMessage)
    ensures
        to_write == move_message(mv, promotion),
{
    MoveMessage {
        from: Square { file: mv.from.file, rank: mv.from.rank },
        to: Square { file: mv.to.file, rank: mv.to.rank },
        forfeit: false,
        offer_draw: false,
        promotion,
    }
}

/// What a buffer tells the endpoint that waits for an acknowledgment.
pub open spec fn ack_in(incoming: Incoming) -> Option<(bool, Option<EndState>)> {
    match incoming {
        Incoming::Ack(ack) => Some((ack.ok, ack.end_state)),
        _ => None,
    }
}

/// Second half of submitting a move: whether the buffer just read is the
/// acknowledgment, and if so whether the peer accepted the move and how
/// the game ended. `None` means the buffer is to be dropped and the read
/// repeated.
pub fn await_ack(incoming: &Incoming) -> (reply: Option<(bool, Option<EndState>)>)
    ensures
        reply == ack_in(*incoming),
{
    match incoming {
        Incoming::Ack(ack) => Some((ack.ok, ack.end_state)),
        _ => None,
    }
}

/// What a buffer tells the endpoint that waits for the peer's move.
pub open spec fn move_in(incoming: Incoming) -> Option<(Square, Square, Option<PromotionPiece>)> {
    match incoming {
        Incoming::Move(m) => Some((m.from, m.to, m.promotion)),
        _ => None,
    }
}

/// Whether the buffer just read is the peer's move, and if so its two
/// squares and its promotion choice. `None` means the buffer is to be
/// dropped and the read repeated.
pub fn await_move(incoming: &Incoming) -> (received: Option<(Square, Square, Option<PromotionPiece>)>)
    ensures
        received == move_in(*incoming),
{
    match incoming {
        Incoming::Move(m) => Some((m.from, m.to, m.promotion)),
        _ => None,
    }
}

/// A move that one endpoint builds with [`do_move`] and the other takes
/// with [`await_move`] comes out as it went in: the same two squares and
/// the same promotion choice.
pub proof fn lemma_move_passes_unchanged(mv: Move, promotion: Option<PromotionPiece>)
    ensures
        move_in(Incoming::Move(move_message(mv, promotion))) == Some(
            (wire_square(mv.from), wire_square(mv.to), promotion),
        ),
        ack_in(Incoming::Move(move_message(mv, promotion))) is None,
        handshake_in(Incoming::Move(move_message(mv, promotion))) is None,
{
}

/// The acknowledgment to write after the peer's move was put to the rules
/// engine: whether it was valid, and the terminal state if the game ended.
pub fn send_ack(valid_move: bool, state: Option<EndState>) -> (to_write: AckMessage)
    ensures
        to_write == (AckMessage { ok: valid_move, end_state: state }),
{
    AckMessage { ok: valid_move, end_state: state }
}

/// The colour of the endpoint that receives a handshake with this flag.
pub open spec fn joiner_colour(is_white: bool) -> Colour {
    if is_white {
        Colour::White
    } else {
        Colour::Black
    }
}

/// The colour of the endpoint that sends a handshake with this flag: the
/// one that the receiver does not get.
pub open spec fn host_colour(is_white: bool) -> Colour {
    joiner_colour(is_white).spec_opposite()
}

/// The host's part of the handshake: the address to listen on, which is
/// the local host with the given port, and the message to write to the one
/// peer that connects. The message gives the peer Black and carries the
/// host's name; the host does not wait for a reply.
pub fn start_server(port: &str, name: &str) -> (listen: (String, HandshakeMessage))
    ensures
        listen.0@ == LOCAL_HOST@ + ":"@ + port@,
        !listen.1.is_white,
        listen.1.name matches Some(n) && n@ == name@,
        listen.1.fen is None,
        listen.1.time is None,
        listen.1.inc is None,
{
    let address = String::from_str(LOCAL_HOST).concat(":").concat(port);
    let start = HandshakeMessage {
        is_white: false,
        name: Some(String::from_str(name)),
        fen: None,
        time: None,
        inc: None,
    };
    (address, start)
}

/// What a buffer tells the joiner that waits for the handshake: the flag
/// and the peer's name.
pub open spec fn handshake_in(incoming: Incoming) -> Option<(bool, Option<Seq<char>>)> {
    match incoming {
        Incoming::Handshake(start) => Some(
            (
                start.is_white,
                match start.name {
                    Some(n) => Some(n@),
                    None => None,
                },
            ),
        ),
        _ => None,
    }
}

/// The joiner's part of the handshake: whether the buffer just read is the
/// handshake, and if so the peer's name and the joiner's own colour, White
/// if the flag is set and Black if not. `None` means the buffer is to be
/// dropped and the read repeated.
pub fn start_client(incoming: &Incoming) -> (joined: Option<(Option<String>, Colour)>)
    ensures
        match handshake_in(*incoming) {
            Some((is_white, name)) => joined matches Some((peer, colour)) && colour
                == joiner_colour(is_white) && match name {
                Some(n) => peer matches Some(p) && p@ == n,
                None => peer is None,
            },
            None => joined is None,
        },
{
    match incoming {
        Incoming::Handshake(start) => {
            let colour = match start.is_white {
                true => Colour::White,
                false => Colour::Black,
            };
            let peer = match &start.name {
                Some(n) => Some(n.clone()),
                None => None,
            };
            Some((peer, colour))
        },
        _ => None,
    }
}

} // verus!
