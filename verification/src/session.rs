//! The turn state machine of one endpoint.
//!
//! A [`Session`] knows its own colour, whose turn it is, and how far the
//! local player or the peer has got with the current ply. It decides; it
//! does not act. Every event that the caller reports (a click on a square,
//! a promotion choice, a buffer read from the transport, the ruling of the
//! rules engine on the peer's move) moves the session to its next state and
//! yields one [`Action`] for the caller to perform.
//!
//! What each event does is written once, as a function on
//! [`SessionModel`]; the methods of [`Session`] are proved to compute it.

use vstd::prelude::*;
use vstd::string::*;
use crate::message::{AckMessage, Incoming, MoveMessage, Square};
use crate::network::{
    ack_in,
    await_ack,
    await_move,
    chess_lib_state_to_network_state,
    do_move,
    end_state_of,
    joiner_colour,
    move_in,
    move_message,
    send_ack,
};
use crate::rules::{Colour, Destination, GameState, Move, Position, PromotionPiece};

verus! {

/// Which end of the connection an endpoint is.
#[derive(Clone, Copy, Debug, PartialEq, Eq, Structural)]
pub enum Role {
    /// Listens, accepts one peer and sends the handshake.
    Host,
    /// Connects and waits for the handshake.
    Joiner,
}

/// Where an endpoint stands within the current ply.
#[derive(Clone, Copy, Debug, PartialEq, Eq, Structural)]
pub enum TurnState {
    /// Nothing is selected.
    Idle,
    /// A chessman of the local colour is chosen and its legal destinations
    /// are on display.
    SquareSelected { from: Position },
    /// A promoting move is chosen; the kind to promote to is not.
    AwaitingPromotionChoice { candidate: Move },
    /// The local move is on the wire and its acknowledgment is not in yet.
    AwaitingPeerAck { sent: Move },
    /// It is the peer's turn and its move is not in yet.
    AwaitingPeerMove,
    /// The peer's move is in and the rules engine has yet to judge it.
    ApplyingPeerMove,
    /// The game has ended; nothing is taken or sent any more.
    GameOver,
    /// The transport has failed; the session has ended with it.
    Disconnected,
}

/// What the caller is to do after an event.
#[derive(Clone, Copy, Debug, PartialEq, Eq, Structural)]
pub enum Action {
    /// No more than to go on: read again if the session expects a
    /// message, else wait for the local player.
    Nothing,
    /// Write this move to the transport.
    SendMove(MoveMessage),
    /// Apply this move of the local side to the rules engine.
    ApplyOwnMove(Move),
    /// Put this move of the peer to the rules engine, then report the
    /// ruling with [`Session::peer_move_applied`].
    ApplyPeerMove { from: Square, to: Square, promotion: Option<PromotionPiece> },
    /// Write this acknowledgment to the transport.
    SendAck(AckMessage),
}

/// The kind of message that an endpoint is blocked on.
#[derive(Clone, Copy, Debug, PartialEq, Eq, Structural)]
pub enum Expected {
    /// None: the transport is not to be read.
    Nothing,
    Ack,
    Move,
}

/// The colour that the handshake flag gives to an endpoint: the joiner is
/// White if the flag is set, and the host is what the joiner is not.
pub open spec fn colour_of(role: Role, is_white: bool) -> Colour {
    match role {
        Role::Joiner => joiner_colour(is_white),
        Role::Host => joiner_colour(is_white).spec_opposite(),
    }
}

/// The colour of an endpoint, from its role and the flag of the handshake
/// that the host sent. Both endpoints go by this one rule.
pub fn assigned_colour(role: Role, is_white: bool) -> (colour: Colour)
    ensures
        colour == colour_of(role, is_white),
{
    let joiner = if is_white {
        Colour::White
    } else {
        Colour::Black
    };
    match role {
        Role::Joiner => joiner,
        Role::Host => joiner.opposite(),
    }
}

/// A session as a mathematical value.
pub struct SessionModel {
    pub role: Role,
    /// The local colour.
    pub colour: Colour,
    /// The local display name.
    pub name: Seq<char>,
    /// The peer's display name, if the handshake told it.
    pub peer_name: Option<Seq<char>>,
    /// The colour whose turn it is: White at the start, and the other one
    /// after every ply that was applied, as in the rules engine.
    pub active: Colour,
    pub state: TurnState,
    /// The legal destinations on display.
    pub highlighted: Seq<Destination>,
}

/// The first of `destinations` that lies on the square with index `idx`.
pub open spec fn destination_to(destinations: Seq<Destination>, idx: u8) -> Option<Destination>
    decreases destinations.len(),
{
    if destinations.len() == 0 {
        None
    } else if destinations[0].to.idx == idx {
        Some(destinations[0])
    } else {
        destination_to(destinations.skip(1), idx)
    }
}

/// What [`destination_to`] finds is the first of the destinations that
/// lies on the square asked for, and it finds none only where none lies
/// there.
pub proof fn lemma_destination_to(destinations: Seq<Destination>, idx: u8)
    ensures
        match destination_to(destinations, idx) {
            Some(found) => exists|i: int|
                {
                    &&& 0 <= i < destinations.len()
                    &&& #[trigger] destinations[i] == found
                    &&& found.to.idx == idx
                    &&& forall|j: int| 0 <= j < i ==> (#[trigger] destinations[j]).to.idx != idx
                },
            None => forall|i: int|
                0 <= i < destinations.len() ==> (#[trigger] destinations[i]).to.idx != idx,
        },
    decreases destinations.len(),
{
    if destinations.len() > 0 && destinations[0].to.idx != idx {
        let rest = destinations.skip(1);
        lemma_destination_to(rest, idx);
        match destination_to(rest, idx) {
            Some(found) => {
                let i = choose|i: int|
                    {
                        &&& 0 <= i < rest.len()
                        &&& #[trigger] rest[i] == found
                        &&& found.to.idx == idx
                        &&& forall|j: int| 0 <= j < i ==> (#[trigger] rest[j]).to.idx != idx
                    };
                assert(destinations[i + 1] == found);
                assert forall|j: int| 0 <= j < i + 1 implies (#[trigger] destinations[j]).to.idx
                    != idx by {
                    if j > 0 {
                        assert(rest[j - 1] == destinations[j]);
                    }
                }
            },
            None => {
                assert forall|i: int| 0 <= i < destinations.len() implies (
                #[trigger] destinations[i]).to.idx != idx by {
                    if i > 0 {
                        assert(rest[i - 1] == destinations[i]);
                    }
                }
            },
        }
    } else if destinations.len() > 0 {
        assert(destinations[0] == destinations[0]);
    }
}

/// The indices of the squares of `destinations`, in their order.
pub open spec fn squares_of(destinations: Seq<Destination>) -> Seq<u32> {
    Seq::new(destinations.len(), |i: int| destinations[i].to.idx as u32)
}

impl SessionModel {
    /// A session at the start of a game: White is to move, so White is
    /// idle and Black waits for the peer.
    pub open spec fn start(
        role: Role,
        colour: Colour,
        name: Seq<char>,
        peer_name: Option<Seq<char>>,
    ) -> SessionModel {
        SessionModel {
            role,
            colour,
            name,
            peer_name,
            active: Colour::White,
            state: if colour == Colour::White {
                TurnState::Idle
            } else {
                TurnState::AwaitingPeerMove
            },
            highlighted: Seq::empty(),
        }
    }

    /// Whether the local side is the one to move.
    pub open spec fn owns_turn(self) -> bool {
        self.colour == self.active
    }

    /// Whether the session has ended: the game is over or the
    /// transport has failed.
    pub open spec fn is_over(self) -> bool {
        self.state is GameOver || self.state is Disconnected
    }

    /// The state agrees with the turn: the local side selects, promotes
    /// and awaits acknowledgment only on its own turn, and awaits or
    /// applies the peer's move only on the peer's. Destinations are on
    /// display only while a square is selected.
    pub open spec fn wf(self) -> bool {
        &&& match self.state {
            TurnState::Idle => self.owns_turn(),
            TurnState::SquareSelected { .. } => self.owns_turn(),
            TurnState::AwaitingPromotionChoice { .. } => self.owns_turn(),
            TurnState::AwaitingPeerAck { .. } => self.owns_turn(),
            TurnState::AwaitingPeerMove => !self.owns_turn(),
            TurnState::ApplyingPeerMove => !self.owns_turn(),
            TurnState::GameOver => true,
            TurnState::Disconnected => true,
        }
        &&& (self.state is SquareSelected || self.highlighted.len() == 0)
    }

    /// The kind of message that the session is blocked on.
    pub open spec fn expects(self) -> Expected {
        match self.state {
            TurnState::AwaitingPeerAck { .. } => Expected::Ack,
            TurnState::AwaitingPeerMove => Expected::Move,
            _ => Expected::Nothing,
        }
    }

    /// The session in another state, with nothing on display.
    pub open spec fn moved_to(self, state: TurnState) -> SessionModel {
        SessionModel { state, highlighted: Seq::empty(), ..self }
    }

    /// The session after a ply was applied: the turn has passed to the
    /// other colour. The game is over if `over` says so; else the local
    /// side is idle if the turn is now its own, and waits for the peer's
    /// move if not.
    pub open spec fn after_ply(self, over: bool) -> SessionModel {
        let active = self.active.spec_opposite();
        SessionModel {
            active,
            state: if over {
                TurnState::GameOver
            } else if self.colour == active {
                TurnState::Idle
            } else {
                TurnState::AwaitingPeerMove
            },
            highlighted: Seq::empty(),
            ..self
        }
    }

    /// A click on `square`, which holds a chessman of colour `occupant`
    /// (or none) that may legally go to `destinations`.
    ///
    /// While idle, the click selects the square if it is the local side's
    /// turn and the chessman is its own. While a square is selected, a
    /// click on one of the destinations on display chooses the move: a
    /// promoting move is held back until the kind is chosen, any other is
    /// sent at once; a click elsewhere drops the selection. In every other
    /// state the click is ignored.
    pub open spec fn on_square_clicked(
        self,
        square: Position,
        occupant: Option<Colour>,
        destinations: Seq<Destination>,
    ) -> (SessionModel, Action) {
        match self.state {
            TurnState::Idle => {
                if self.owns_turn() && occupant == Some(self.colour) {
                    (
                        SessionModel {
                            state: TurnState::SquareSelected { from: square },
                            highlighted: destinations,
                            ..self
                        },
                        Action::Nothing,
                    )
                } else {
                    (self, Action::Nothing)
                }
            },
            TurnState::SquareSelected { from } => {
                match destination_to(self.highlighted, square.idx) {
                    Some(destination) => {
                        let mv = Move { from, to: destination.to, promotion_choice: None };
                        if destination.promotion {
                            (
                                self.moved_to(TurnState::AwaitingPromotionChoice { candidate: mv }),
                                Action::Nothing,
                            )
                        } else {
                            (
                                self.moved_to(TurnState::AwaitingPeerAck { sent: mv }),
                                Action::SendMove(move_message(mv, None)),
                            )
                        }
                    },
                    None => (self.moved_to(TurnState::Idle), Action::Nothing),
                }
            },
            _ => (self, Action::Nothing),
        }
    }

    /// The choice of the kind to promote to. While a promoting move is
    /// held back, the choice completes it and the move is sent; in every
    /// other state the choice is ignored.
    pub open spec fn on_promotion_chosen(self, piece: PromotionPiece) -> (SessionModel, Action) {
        match self.state {
            TurnState::AwaitingPromotionChoice { candidate } => {
                let mv = Move { promotion_choice: Some(piece), ..candidate };
                (
                    self.moved_to(TurnState::AwaitingPeerAck { sent: mv }),
                    Action::SendMove(move_message(mv, Some(piece))),
                )
            },
            _ => (self, Action::Nothing),
        }
    }

    /// A buffer read from the transport.
    ///
    /// While the acknowledgment is awaited, an acknowledgment that accepts
    /// the move has it applied locally and passes the turn, or ends the
    /// game if it says so; one that rejects it drops the move and leaves
    /// the turn where it is. While the peer's move is awaited, a move
    /// between two squares of the board goes to the rules engine, and one
    /// that names a square off the board is rejected at once. A buffer of
    /// any other kind is dropped, and in every other state every buffer
    /// is.
    pub open spec fn on_received(self, incoming: Incoming) -> (SessionModel, Action) {
        match self.state {
            TurnState::AwaitingPeerAck { sent } => {
                match ack_in(incoming) {
                    Some((ok, end_state)) => {
                        if ok {
                            (self.after_ply(end_state is Some), Action::ApplyOwnMove(sent))
                        } else {
                            (self.moved_to(TurnState::Idle), Action::Nothing)
                        }
                    },
                    None => (self, Action::Nothing),
                }
            },
            TurnState::AwaitingPeerMove => {
                match move_in(incoming) {
                    Some((from, to, promotion)) => {
                        if from.on_board() && to.on_board() {
                            (
                                self.moved_to(TurnState::ApplyingPeerMove),
                                Action::ApplyPeerMove { from, to, promotion },
                            )
                        } else {
                            (self, Action::SendAck(AckMessage { ok: false, end_state: None }))
                        }
                    },
                    None => (self, Action::Nothing),
                }
            },
            _ => (self, Action::Nothing),
        }
    }

    /// The ruling of the rules engine on the peer's move: whether it was
    /// legal and applied, and the state of the game after it.
    ///
    /// A legal move is acknowledged, with the terminal state if the game
    /// ended, and passes the turn to the local side. An illegal one is
    /// rejected and the peer's next move awaited. Outside
    /// [`TurnState::ApplyingPeerMove`] the ruling is ignored.
    pub open spec fn on_peer_move_applied(self, legal: bool, state: GameState) -> (
        SessionModel,
        Action,
    ) {
        match self.state {
            TurnState::ApplyingPeerMove => {
                if legal {
                    (
                        self.after_ply(state == GameState::GameOver),
                        Action::SendAck(AckMessage { ok: true, end_state: end_state_of(state) }),
                    )
                } else {
                    (
                        self.moved_to(TurnState::AwaitingPeerMove),
                        Action::SendAck(AckMessage { ok: false, end_state: None }),
                    )
                }
            },
            _ => (self, Action::Nothing),
        }
    }

    /// A read or a write on the transport has failed. There is no way
    /// back: the session ends, unless the game had ended before.
    pub open spec fn on_transport_failed(self) -> SessionModel {
        if self.state is GameOver {
            self
        } else {
            self.moved_to(TurnState::Disconnected)
        }
    }
}

/// The turn state machine of one endpoint, with its identity.
pub struct Session {
    role: Role,
    colour: Colour,
    name: String,
    peer_name: Option<String>,
    active: Colour,
    state: TurnState,
    highlighted: Vec<Destination>,
}

impl View for Session {
    type V = SessionModel;

    closed spec fn view(&self) -> SessionModel {
        SessionModel {
            role: self.role,
            colour: self.colour,
            name: self.name@,
            peer_name: match self.peer_name {
                Some(n) => Some(n@),
                None => None,
            },
            active: self.active,
            state: self.state,
            highlighted: self.highlighted@,
        }
    }
}

/// The first of `destinations` that lies on the square with index `idx`.
fn find_destination(destinations: &Vec<Destination>, idx: u8) -> (found: Option<Destination>)
    ensures
        found == destination_to(destinations@, idx),
{
    let mut i: usize = 0;
    assert(destinations@.skip(0) == destinations@);
    while i < destinations.len()
        invariant
            i <= destinations.len(),
            destination_to(destinations@, idx) == destination_to(destinations@.skip(i as int), idx),
        decreases destinations.len() - i,
    {
        let destination = destinations[i];
        if destination.to.idx == idx {
            return Some(destination);
        }
        assert(destinations@.skip(i as int).skip(1) == destinations@.skip(i + 1));
        i += 1;
    }
    None
}

impl Session {
    /// A session at the start of a game.
    pub fn new(role: Role, colour: Colour, name: String, peer_name: Option<String>) -> (session:
        Session)
        ensures
            session@ == SessionModel::start(
                role,
                colour,
                name@,
                match peer_name {
                    Some(n) => Some(n@),
                    None => None,
                },
            ),
            session@.wf(),
    {
        let state = match colour {
            Colour::White => TurnState::Idle,
            Colour::Black => TurnState::AwaitingPeerMove,
        };
        Session {
            role,
            colour,
            name,
            peer_name,
            active: Colour::White,
            state,
            highlighted: Vec::new(),
        }
    }

    pub fn role(&self) -> (role: Role)
        ensures
            role == self@.role,
    {
        self.role
    }

    /// The local colour.
    pub fn colour(&self) -> (colour: Colour)
        ensures
            colour == self@.colour,
    {
        self.colour
    }

    /// The local display name.
    pub fn name(&self) -> (name: &String)
        ensures
            name@ == self@.name,
    {
        &self.name
    }

    /// The peer's display name, if the handshake told it.
    pub fn peer_name(&self) -> (name: &Option<String>)
        ensures
            match self@.peer_name {
                Some(n) => *name matches Some(p) && p@ == n,
                None => *name is None,
            },
    {
        &self.peer_name
    }

    /// The colour whose turn it is.
    pub fn active_colour(&self) -> (colour: Colour)
        ensures
            colour == self@.active,
    {
        self.active
    }

    pub fn state(&self) -> (state: TurnState)
        ensures
            state == self@.state,
    {
        self.state
    }

    /// Whether the local side is the one to move.
    pub fn owns_turn(&self) -> (owns: bool)
        ensures
            owns == self@.owns_turn(),
    {
        self.colour == self.active
    }

    /// Whether the session has ended.
    pub fn is_over(&self) -> (over: bool)
        ensures
            over == self@.is_over(),
    {
        match self.state {
            TurnState::GameOver => true,
            TurnState::Disconnected => true,
            _ => false,
        }
    }

    /// The kind of message to read from the transport next, if any.
    pub fn expects(&self) -> (expected: Expected)
        ensures
            expected == self@.expects(),
    {
        match self.state {
            TurnState::AwaitingPeerAck { .. } => Expected::Ack,
            TurnState::AwaitingPeerMove => Expected::Move,
            _ => Expected::Nothing,
        }
    }

    /// The indices of the squares to highlight.
    pub fn highlighted_squares(&self) -> (squares: Vec<u32>)
        ensures
            squares@ == squares_of(self@.highlighted),
    {
        let mut squares: Vec<u32> = Vec::new();
        let mut i: usize = 0;
        while i < self.highlighted.len()
            invariant
                i <= self.highlighted.len(),
                squares@ == squares_of(self.highlighted@.take(i as int)),
            decreases self.highlighted.len() - i,
        {
            squares.push(self.highlighted[i].to.idx as u32);
            i += 1;
        }
        assert(self.highlighted@.take(i as int) == self.highlighted@);
        squares
    }

    /// Reports a click on `square`; see
    /// [`SessionModel::on_square_clicked`].
    pub fn square_clicked(
        &mut self,
        square: Position,
        occupant: Option<Colour>,
        destinations: Vec<Destination>,
    ) -> (action: Action)
        ensures
            (final(self)@, action) == old(self)@.on_square_clicked(
                square,
                occupant,
                destinations@,
            ),
            old(self)@.wf() ==> final(self)@.wf(),
    {
        match self.state {
            TurnState::Idle => {
                let own = match occupant {
                    Some(c) => c == self.colour,
                    None => false,
                };
                if self.colour == self.active && own {
                    self.state = TurnState::SquareSelected { from: square };
                    self.highlighted = destinations;
                }
                Action::Nothing
            },
            TurnState::SquareSelected { from } => {
                let found = find_destination(&self.highlighted, square.idx);
                self.highlighted = Vec::new();
                match found {
                    Some(destination) => {
                        let mv = Move { from, to: destination.to, promotion_choice: None };
                        if destination.promotion {
                            self.state = TurnState::AwaitingPromotionChoice { candidate: mv };
                            Action::Nothing
                        } else {
                            self.state = TurnState::AwaitingPeerAck { sent: mv };
                            Action::SendMove(do_move(mv, None))
                        }
                    },
                    None => {
                        self.state = TurnState::Idle;
                        Action::Nothing
                    },
                }
            },
            _ => Action::Nothing,
        }
    }

    /// Reports the choice of the kind to promote to; see
    /// [`SessionModel::on_promotion_chosen`].
    pub fn promotion_chosen(&mut self, piece: PromotionPiece) -> (action: Action)
        ensures
            (final(self)@, action) == old(self)@.on_promotion_chosen(piece),
            old(self)@.wf() ==> final(self)@.wf(),
    {
        match self.state {
            TurnState::AwaitingPromotionChoice { candidate } => {
                let mv = Move {
                    from: candidate.from,
                    to: candidate.to,
                    promotion_choice: Some(piece),
                };
                self.state = TurnState::AwaitingPeerAck { sent: mv };
                self.highlighted = Vec::new();
                Action::SendMove(do_move(mv, Some(piece)))
            },
            _ => Action::Nothing,
        }
    }

    /// The turn passes after a ply was applied; see
    /// [`SessionModel::after_ply`].
    fn pass_turn(&mut self, over: bool)
        ensures
            final(self)@ == old(self)@.after_ply(over),
    {
        self.active = self.active.opposite();
        self.highlighted = Vec::new();
        self.state = if over {
            TurnState::GameOver
        } else if self.colour == self.active {
            TurnState::Idle
        } else {
            TurnState::AwaitingPeerMove
        };
    }

    /// Reports a buffer read from the transport; see
    /// [`SessionModel::on_received`].
    pub fn received(&mut self, incoming: &Incoming) -> (action: Action)
        ensures
            (final(self)@, action) == old(self)@.on_received(*incoming),
            old(self)@.wf() ==> final(self)@.wf(),
    {
        match self.state {
            TurnState::AwaitingPeerAck { sent } => {
                match await_ack(incoming) {
                    Some((ok, end_state)) => {
                        if ok {
                            self.pass_turn(end_state.is_some());
                            Action::ApplyOwnMove(sent)
                        } else {
                            self.state = TurnState::Idle;
                            self.highlighted = Vec::new();
                            Action::Nothing
                        }
                    },
                    None => Action::Nothing,
                }
            },
            TurnState::AwaitingPeerMove => {
                match await_move(incoming) {
                    Some((from, to, promotion)) => {
                        if from.on_board() && to.on_board() {
                            self.state = TurnState::ApplyingPeerMove;
                            self.highlighted = Vec::new();
                            Action::ApplyPeerMove { from, to, promotion }
                        } else {
                            Action::SendAck(send_ack(false, None))
                        }
                    },
                    None => Action::Nothing,
                }
            },
            _ => Action::Nothing,
        }
    }

    /// Reports the ruling of the rules engine on the peer's move; see
    /// [`SessionModel::on_peer_move_applied`].
    pub fn peer_move_applied(&mut self, legal: bool, state: GameState) -> (action: Action)
        ensures
            (final(self)@, action) == old(self)@.on_peer_move_applied(legal, state),
            old(self)@.wf() ==> final(self)@.wf(),
    {
        match self.state {
            TurnState::ApplyingPeerMove => {
                if legal {
                    let over = match state {
                        GameState::GameOver => true,
                        _ => false,
                    };
                    self.pass_turn(over);
                    Action::SendAck(send_ack(true, chess_lib_state_to_network_state(state)))
                } else {
                    self.state = TurnState::AwaitingPeerMove;
                    self.highlighted = Vec::new();
                    Action::SendAck(send_ack(false, None))
                }
            },
            _ => Action::Nothing,
        }
    }

    /// Reports that a read or a write on the transport has failed; see
    /// [`SessionModel::on_transport_failed`].
    pub fn transport_failed(&mut self)
        ensures
            final(self)@ == old(self)@.on_transport_failed(),
            old(self)@.wf() ==> final(self)@.wf(),
    {
        match self.state {
            TurnState::GameOver => {},
            _ => {
                self.state = TurnState::Disconnected;
                self.highlighted = Vec::new();
            },
        }
    }
}

} // verus!
