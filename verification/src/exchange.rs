//! One ply between the two endpoints, and what holds of it.
//!
//! The sessions of both endpoints are put side by side, each with the
//! position that its rules engine holds. The endpoint whose turn it is has
//! a move on the wire; the other reads it, lets its rules engine judge it
//! and acknowledges; the first reads the acknowledgment. The rules engine
//! is any function that takes a position and a move to the next position,
//! or refuses the move. Transport and codec are taken to hand each message
//! to the other side as it was written.

use vstd::prelude::*;
use crate::message::{AckMessage, EndState, Incoming, MoveMessage, Square};
use crate::network::{end_state_of, move_message, wire_square};
use crate::rules::{Colour, Destination, GameState, Move, Position, PromotionPiece};
use crate::session::{
    colour_of,
    lemma_destination_to,
    Action,
    Expected,
    Role,
    SessionModel,
    TurnState,
};

verus! {

/// A rules engine over positions of type `B`.
#[verifier::reject_recursive_types(B)]
pub struct Rules<B> {
    /// The position after a move from one square to another, with a
    /// promotion choice if there is one; `None` if the move is illegal.
    pub apply: spec_fn(B, Square, Square, Option<PromotionPiece>) -> Option<B>,
    /// What the engine reports of a position.
    pub state: spec_fn(B) -> GameState,
}

/// An endpoint: its session and the position that its rules engine holds.
pub struct Endpoint<B> {
    pub session: SessionModel,
    pub board: B,
}

/// The message that puts a move on the wire.
pub open spec fn wire_of(sent: Move) -> MoveMessage {
    move_message(sent, sent.promotion_choice)
}

impl<B> Rules<B> {
    /// The position after the engine was asked to apply a move: the next
    /// position, or the same if it refused.
    pub open spec fn put(
        self,
        board: B,
        from: Square,
        to: Square,
        promotion: Option<PromotionPiece>,
    ) -> B {
        match (self.apply)(board, from, to, promotion) {
            Some(next) => next,
            None => board,
        }
    }

    /// The position after the caller has performed an action. A move of
    /// the local side reaches the engine by the two squares that went on
    /// the wire, as the peer's does.
    pub open spec fn perform(self, board: B, action: Action) -> B {
        match action {
            Action::ApplyOwnMove(mv) => self.put(
                board,
                wire_square(mv.from),
                wire_square(mv.to),
                mv.promotion_choice,
            ),
            Action::ApplyPeerMove { from, to, promotion } => self.put(board, from, to, promotion),
            _ => board,
        }
    }

    /// The endpoint that waits for the peer's move, after it has read
    /// `incoming`: a move goes to the rules engine and its ruling back to
    /// the session. The second part is what the endpoint writes.
    pub open spec fn answer(self, peer: Endpoint<B>, incoming: Incoming) -> (Endpoint<B>, Action) {
        let (reading, action) = peer.session.on_received(incoming);
        match action {
            Action::ApplyPeerMove { from, to, promotion } => {
                let legal = (self.apply)(peer.board, from, to, promotion) is Some;
                let board = self.perform(peer.board, action);
                let (session, reply) = reading.on_peer_move_applied(legal, (self.state)(board));
                (Endpoint { session, board }, reply)
            },
            _ => (Endpoint { session: reading, board: peer.board }, action),
        }
    }

    /// The endpoint that waits for an acknowledgment, after it has read
    /// `incoming` and performed what its session asked for.
    pub open spec fn conclude(self, owner: Endpoint<B>, incoming: Incoming) -> Endpoint<B> {
        let (session, action) = owner.session.on_received(incoming);
        Endpoint { session, board: self.perform(owner.board, action) }
    }

    /// Both endpoints after the ply that `owner` has on the wire: first
    /// the owner, then the peer.
    pub open spec fn exchange(self, owner: Endpoint<B>, peer: Endpoint<B>) -> (
        Endpoint<B>,
        Endpoint<B>,
    )
        recommends
            owner.session.state is AwaitingPeerAck,
            peer.session.state is AwaitingPeerMove,
    {
        let sent = owner.session.state->sent;
        let (answered, reply) = self.answer(peer, Incoming::Move(wire_of(sent)));
        match reply {
            Action::SendAck(ack) => (self.conclude(owner, Incoming::Ack(ack)), answered),
            _ => (owner, answered),
        }
    }

    /// Whether the peer accepts the move that `owner` has on the wire: its
    /// squares lie on the board and the peer's rules engine takes it.
    pub open spec fn accepts(self, owner: Endpoint<B>, peer: Endpoint<B>) -> bool
        recommends
            owner.session.state is AwaitingPeerAck,
    {
        let sent = owner.session.state->sent;
        &&& wire_square(sent.from).on_board()
        &&& wire_square(sent.to).on_board()
        &&& (self.apply)(
            peer.board,
            wire_square(sent.from),
            wire_square(sent.to),
            sent.promotion_choice,
        ) is Some
    }
}

/// Whether `incoming` is of the kind that the session is blocked on.
pub open spec fn awaited(session: SessionModel, incoming: Incoming) -> bool {
    match session.state {
        TurnState::AwaitingPeerAck { .. } => incoming is Ack,
        TurnState::AwaitingPeerMove => incoming is Move,
        _ => false,
    }
}

/// Whichever way the host sets the flag of its handshake, the two
/// endpoints get different colours, so exactly one of them is White. At
/// the start of the game that one is idle and owns the turn, and the
/// other waits for its move.
pub proof fn lemma_colours_differ(
    is_white: bool,
    host_name: Seq<char>,
    joiner_name: Seq<char>,
    peer_name: Option<Seq<char>>,
)
    ensures
        colour_of(Role::Host, is_white) == colour_of(Role::Joiner, is_white).spec_opposite(),
        colour_of(Role::Joiner, is_white) == Colour::White <==> is_white,
        ({
            let host = SessionModel::start(
                Role::Host,
                colour_of(Role::Host, is_white),
                host_name,
                None,
            );
            let joiner = SessionModel::start(
                Role::Joiner,
                colour_of(Role::Joiner, is_white),
                joiner_name,
                peer_name,
            );
            &&& host.wf() && joiner.wf()
            &&& host.active == joiner.active
            &&& host.owns_turn() != joiner.owns_turn()
            &&& host.owns_turn() ==> host.state is Idle && joiner.state is AwaitingPeerMove
            &&& joiner.owns_turn() ==> joiner.state is Idle && host.state is AwaitingPeerMove
        }),
{
}

/// Every event leaves a session whose state agrees with the turn in such
/// a state.
pub proof fn lemma_events_keep_wf(
    session: SessionModel,
    square: Position,
    occupant: Option<Colour>,
    destinations: Seq<Destination>,
    piece: PromotionPiece,
    incoming: Incoming,
    legal: bool,
    state: GameState,
)
    requires
        session.wf(),
    ensures
        session.on_square_clicked(square, occupant, destinations).0.wf(),
        session.on_promotion_chosen(piece).0.wf(),
        session.on_received(incoming).0.wf(),
        session.on_peer_move_applied(legal, state).0.wf(),
        session.on_transport_failed().wf(),
{
}

/// Each side of the exchange acts on the right turn. A session writes a
/// move, waits for an acknowledgment and applies a move of its own only
/// when it owns the turn; it waits for a move, hands one to the rules
/// engine and writes an acknowledgment only when the peer does.
pub proof fn lemma_each_side_acts_on_its_turn(
    session: SessionModel,
    square: Position,
    occupant: Option<Colour>,
    destinations: Seq<Destination>,
    piece: PromotionPiece,
    incoming: Incoming,
    legal: bool,
    state: GameState,
)
    requires
        session.wf(),
    ensures
        session.expects() == Expected::Ack ==> session.owns_turn(),
        session.expects() == Expected::Move ==> !session.owns_turn(),
        session.on_square_clicked(square, occupant, destinations).1 is SendMove
            ==> session.owns_turn(),
        session.on_promotion_chosen(piece).1 is SendMove ==> session.owns_turn(),
        session.on_received(incoming).1 is ApplyOwnMove ==> session.owns_turn(),
        session.on_received(incoming).1 is ApplyPeerMove ==> !session.owns_turn(),
        session.on_received(incoming).1 is SendAck ==> !session.owns_turn(),
        session.on_peer_move_applied(legal, state).1 is SendAck ==> !session.owns_turn(),
        !(session.on_square_clicked(square, occupant, destinations).1 is SendAck),
        !(session.on_promotion_chosen(piece).1 is SendAck),
{
}

/// A session writes a move only as it begins to wait for the
/// acknowledgment of that very move, and while it waits it writes no
/// other and leaves that state on an acknowledgment alone: one move is in
/// flight per ply.
pub proof fn lemma_one_move_in_flight(
    session: SessionModel,
    square: Position,
    occupant: Option<Colour>,
    destinations: Seq<Destination>,
    piece: PromotionPiece,
    incoming: Incoming,
    legal: bool,
    state: GameState,
)
    ensures
        ({
            let (next, action) = session.on_square_clicked(square, occupant, destinations);
            action matches Action::SendMove(m) ==> !(session.state is AwaitingPeerAck)
                && next.state is AwaitingPeerAck && m == wire_of(next.state->sent)
        }),
        ({
            let (next, action) = session.on_promotion_chosen(piece);
            action matches Action::SendMove(m) ==> !(session.state is AwaitingPeerAck)
                && next.state is AwaitingPeerAck && m == wire_of(next.state->sent)
        }),
        !(session.on_received(incoming).1 is SendMove),
        !(session.on_peer_move_applied(legal, state).1 is SendMove),
        session.state is AwaitingPeerAck ==> {
            &&& session.on_square_clicked(square, occupant, destinations).0 == session
            &&& session.on_promotion_chosen(piece).0 == session
            &&& session.on_peer_move_applied(legal, state).0 == session
            &&& session.on_received(incoming).0.state is AwaitingPeerAck <==> !(incoming is Ack)
        },
{
}

/// A move is sent on a click only from the selected square to one of the
/// destinations on display, which are the legal ones that the rules
/// engine gave for that square, and only if it does not promote.
pub proof fn lemma_only_highlighted_moves_are_sent(
    session: SessionModel,
    square: Position,
    occupant: Option<Colour>,
    destinations: Seq<Destination>,
)
    ensures
        session.on_square_clicked(square, occupant, destinations).1 matches Action::SendMove(m)
            ==> session.state is SquareSelected && exists|i: int|
            {
                &&& 0 <= i < session.highlighted.len()
                &&& (#[trigger] session.highlighted[i]).to.idx == square.idx
                &&& !session.highlighted[i].promotion
                &&& m == move_message(
                    Move {
                        from: session.state->from,
                        to: session.highlighted[i].to,
                        promotion_choice: None,
                    },
                    None,
                )
            },
{
    lemma_destination_to(session.highlighted, square.idx);
}

/// A buffer that is not of the kind awaited is dropped without a trace:
/// the session stays as it is and asks for nothing. The message that
/// comes after it is then taken as if it had come first, and while a move
/// is awaited, exactly that move goes to the rules engine.
pub proof fn lemma_noise_is_dropped(session: SessionModel, noise: Incoming, m: MoveMessage)
    requires
        !awaited(session, noise),
    ensures
        session.on_received(noise) == (session, Action::Nothing),
        session.on_received(noise).0.on_received(Incoming::Move(m)) == session.on_received(
            Incoming::Move(m),
        ),
        session.state is AwaitingPeerMove && m.from.on_board() && m.to.on_board()
            ==> session.on_received(noise).0.on_received(Incoming::Move(m)).1
            == (Action::ApplyPeerMove { from: m.from, to: m.to, promotion: m.promotion }),
{
}

/// While a promoting move is held back, nothing but the choice of a kind
/// gets it sent, and then the message carries exactly that kind, from and
/// to the squares of the move that was held.
pub proof fn lemma_promotion_is_held(
    session: SessionModel,
    square: Position,
    occupant: Option<Colour>,
    destinations: Seq<Destination>,
    piece: PromotionPiece,
    incoming: Incoming,
    legal: bool,
    state: GameState,
)
    requires
        session.state is AwaitingPromotionChoice,
    ensures
        session.on_square_clicked(square, occupant, destinations) == (session, Action::Nothing),
        session.on_received(incoming) == (session, Action::Nothing),
        session.on_peer_move_applied(legal, state) == (session, Action::Nothing),
        session.on_promotion_chosen(piece).1 == Action::SendMove(
            MoveMessage {
                from: wire_square(session.state->candidate.from),
                to: wire_square(session.state->candidate.to),
                forfeit: false,
                offer_draw: false,
                promotion: Some(piece),
            },
        ),
{
}

/// The peer answers the move on the wire with an acknowledgment that
/// tells how the move fared: accepted or not, and if accepted, the
/// terminal state of the position that the move led to. A move that the
/// peer accepts has gone to its rules engine as it was sent, promotion
/// choice included.
pub proof fn lemma_reply_tells_the_outcome<B>(rules: Rules<B>, owner: Endpoint<B>, peer: Endpoint<B>)
    requires
        owner.session.state is AwaitingPeerAck,
        peer.session.state is AwaitingPeerMove,
    ensures
        ({
            let sent = owner.session.state->sent;
            let (answered, reply) = rules.answer(peer, Incoming::Move(wire_of(sent)));
            let accepted = rules.accepts(owner, peer);
            &&& reply == Action::SendAck(
                AckMessage {
                    ok: accepted,
                    end_state: if accepted {
                        end_state_of((rules.state)(answered.board))
                    } else {
                        None
                    },
                },
            )
            &&& accepted ==> peer.session.on_received(Incoming::Move(wire_of(sent))).1 == (
            Action::ApplyPeerMove {
                from: wire_square(sent.from),
                to: wire_square(sent.to),
                promotion: sent.promotion_choice,
            })
        }),
{
}

/// The owner applies its move when the peer has accepted it, and only
/// then. So two endpoints that held the same position before the ply hold
/// the same position after it, whether the move was accepted or not.
pub proof fn lemma_positions_agree<B>(rules: Rules<B>, owner: Endpoint<B>, peer: Endpoint<B>)
    requires
        owner.session.state is AwaitingPeerAck,
        peer.session.state is AwaitingPeerMove,
        owner.board == peer.board,
    ensures
        ({
            let sent = owner.session.state->sent;
            let (owner_after, peer_after) = rules.exchange(owner, peer);
            &&& owner_after.board == peer_after.board
            &&& rules.accepts(owner, peer) ==> owner_after.board == rules.perform(
                owner.board,
                Action::ApplyOwnMove(sent),
            )
        }),
{
}

/// After a move that the peer accepted, the turn has passed on both
/// sides: the active colour is the other one, the owner of the turn no
/// longer owns it and the peer does. Unless the game is over, the owner
/// now waits for the peer's move and the peer is free to choose one.
pub proof fn lemma_turn_alternates<B>(rules: Rules<B>, owner: Endpoint<B>, peer: Endpoint<B>)
    requires
        owner.session.wf(),
        peer.session.wf(),
        owner.session.state is AwaitingPeerAck,
        peer.session.state is AwaitingPeerMove,
        rules.accepts(owner, peer),
    ensures
        ({
            let (owner_after, peer_after) = rules.exchange(owner, peer);
            &&& owner_after.session.active == owner.session.active.spec_opposite()
            &&& peer_after.session.active == peer.session.active.spec_opposite()
            &&& owner.session.owns_turn() && !owner_after.session.owns_turn()
            &&& !peer.session.owns_turn() && peer_after.session.owns_turn()
            &&& owner_after.session.is_over() == peer_after.session.is_over()
            &&& !owner_after.session.is_over() ==> owner_after.session.state
                is AwaitingPeerMove && peer_after.session.state is Idle
        }),
{
}

/// A move that the peer rejects changes nothing: both positions stay as
/// they were, the active colour too, the owner applies nothing and is back
/// to choosing a move, and the peer goes on waiting for one.
pub proof fn lemma_rejected_move_changes_nothing<B>(
    rules: Rules<B>,
    owner: Endpoint<B>,
    peer: Endpoint<B>,
)
    requires
        owner.session.wf(),
        peer.session.wf(),
        owner.session.state is AwaitingPeerAck,
        peer.session.state is AwaitingPeerMove,
        !rules.accepts(owner, peer),
    ensures
        ({
            let (owner_after, peer_after) = rules.exchange(owner, peer);
            &&& owner_after.board == owner.board
            &&& peer_after.board == peer.board
            &&& owner_after.session.active == owner.session.active
            &&& owner_after.session.owns_turn()
            &&& owner_after.session == owner.session.moved_to(TurnState::Idle)
            &&& peer_after.session == peer.session
        }),
        forall|end_state: Option<EndState>|
            (#[trigger] owner.session.on_received(
                Incoming::Ack(AckMessage { ok: false, end_state }),
            )) == (owner.session.moved_to(TurnState::Idle), Action::Nothing),
{
    assert(peer.session.highlighted =~= Seq::empty());
}

/// A move that ends the game is acknowledged with checkmate as the
/// terminal state, and both endpoints end the game: the peer as it
/// acknowledges, the owner as it reads the acknowledgment.
pub proof fn lemma_game_over_reaches_both<B>(rules: Rules<B>, owner: Endpoint<B>, peer: Endpoint<B>)
    requires
        owner.session.state is AwaitingPeerAck,
        peer.session.state is AwaitingPeerMove,
        rules.accepts(owner, peer),
        (rules.state)(rules.exchange(owner, peer).1.board) == GameState::GameOver,
    ensures
        ({
            let sent = owner.session.state->sent;
            rules.answer(peer, Incoming::Move(wire_of(sent))).1 == Action::SendAck(
                AckMessage { ok: true, end_state: Some(EndState::CheckMate) },
            )
        }),
        rules.exchange(owner, peer).0.session.state is GameOver,
        rules.exchange(owner, peer).1.session.state is GameOver,
{
}

/// Whether the local player of a session is free to choose a move.
pub open spec fn chooses(session: SessionModel) -> bool {
    ||| session.state is Idle
    ||| session.state is SquareSelected
    ||| session.state is AwaitingPromotionChoice
}

/// Two sessions between two plies: one player chooses while the other
/// endpoint waits for the move, or the game is over on both sides.
pub open spec fn between_plies(a: SessionModel, b: SessionModel) -> bool {
    ||| chooses(a) && b.state is AwaitingPeerMove
    ||| chooses(b) && a.state is AwaitingPeerMove
    ||| a.state is GameOver && b.state is GameOver
}

/// Two endpoints in step: they play different colours, agree on whose
/// turn it is and hold the same position.
pub open spec fn in_step<B>(a: Endpoint<B>, b: Endpoint<B>) -> bool {
    &&& a.session.wf()
    &&& b.session.wf()
    &&& a.session.colour != b.session.colour
    &&& a.session.active == b.session.active
    &&& a.board == b.board
}

/// Host and joiner begin in step and between plies, whichever way the
/// host sets the flag of its handshake, if their rules engines begin with
/// the same position.
pub proof fn lemma_game_starts_in_step<B>(
    is_white: bool,
    host_name: Seq<char>,
    joiner_name: Seq<char>,
    peer_name: Option<Seq<char>>,
    board: B,
)
    ensures
        ({
            let host = Endpoint {
                session: SessionModel::start(
                    Role::Host,
                    colour_of(Role::Host, is_white),
                    host_name,
                    None,
                ),
                board,
            };
            let joiner = Endpoint {
                session: SessionModel::start(
                    Role::Joiner,
                    colour_of(Role::Joiner, is_white),
                    joiner_name,
                    peer_name,
                ),
                board,
            };
            in_step(host, joiner) && between_plies(host.session, joiner.session)
        }),
{
}

/// What the local player does while choosing touches neither position
/// nor turn. The two endpoints stay in step, and either stay between
/// plies or the player's move is on the wire and the other endpoint waits
/// for it.
pub proof fn lemma_choosing_keeps_in_step<B>(
    chooser: Endpoint<B>,
    other: Endpoint<B>,
    square: Position,
    occupant: Option<Colour>,
    destinations: Seq<Destination>,
    piece: PromotionPiece,
)
    requires
        in_step(chooser, other),
        between_plies(chooser.session, other.session),
    ensures
        ({
            let (clicked, _) = chooser.session.on_square_clicked(square, occupant, destinations);
            let after = Endpoint { session: clicked, board: chooser.board };
            &&& in_step(after, other)
            &&& between_plies(clicked, other.session) || (clicked.state is AwaitingPeerAck
                && other.session.state is AwaitingPeerMove)
        }),
        ({
            let (promoted, _) = chooser.session.on_promotion_chosen(piece);
            let after = Endpoint { session: promoted, board: chooser.board };
            &&& in_step(after, other)
            &&& between_plies(promoted, other.session) || (promoted.state is AwaitingPeerAck
                && other.session.state is AwaitingPeerMove)
        }),
{
}

/// Two endpoints that were in step before a ply are in step and between
/// plies after it: after a move that was accepted with the turn passed on
/// or the game over on both sides, after a rejected one as they were
/// before it was chosen. So from the handshake on, between any two plies,
/// the endpoints hold the same position and agree on whose turn it is.
pub proof fn lemma_exchange_keeps_in_step<B>(rules: Rules<B>, owner: Endpoint<B>, peer: Endpoint<B>)
    requires
        in_step(owner, peer),
        owner.session.state is AwaitingPeerAck,
        peer.session.state is AwaitingPeerMove,
    ensures
        ({
            let (owner_after, peer_after) = rules.exchange(owner, peer);
            &&& in_step(owner_after, peer_after)
            &&& between_plies(owner_after.session, peer_after.session)
            &&& rules.accepts(owner, peer) && !owner_after.session.is_over() ==> chooses(
                peer_after.session,
            )
            &&& !rules.accepts(owner, peer) ==> chooses(owner_after.session)
        }),
{
    assert(peer.session.highlighted =~= Seq::empty());
}

/// Once a session has ended it takes nothing in and gives nothing
/// out: every event leaves it as it is and asks for nothing, and it
/// expects no message.
pub proof fn lemma_end_is_final(
    session: SessionModel,
    square: Position,
    occupant: Option<Colour>,
    destinations: Seq<Destination>,
    piece: PromotionPiece,
    incoming: Incoming,
    legal: bool,
    state: GameState,
)
    requires
        session.is_over(),
    ensures
        session.on_square_clicked(square, occupant, destinations) == (session, Action::Nothing),
        session.on_promotion_chosen(piece) == (session, Action::Nothing),
        session.on_received(incoming) == (session, Action::Nothing),
        session.on_peer_move_applied(legal, state) == (session, Action::Nothing),
        session.on_transport_failed().is_over(),
        session.expects() == Expected::Nothing,
{
}

} // verus!
