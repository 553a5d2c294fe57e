use chess_peer::message::{AckMessage, EndState, Incoming, MoveMessage, Square};
use chess_peer::rules::{Colour, Destination, GameState, Move, Position, PromotionPiece};
use chess_peer::session::{assigned_colour, Action, Expected, Role, Session, TurnState};

fn pos(file: u8, rank: u8) -> Position {
    Position { file, rank, idx: rank * 8 + file }
}

fn sq(file: u8, rank: u8) -> Square {
    Square { file, rank }
}

fn white_joiner() -> Session {
    Session::new(Role::Joiner, Colour::White, String::from("ann"), Some(String::from("bob")))
}

fn black_host() -> Session {
    Session::new(Role::Host, Colour::Black, String::from("bob"), None)
}

/// Selects e2 and chooses e4 on a session that owns the turn.
fn submit_e2_e4(session: &mut Session) -> Action {
    let first = session.square_clicked(
        pos(4, 1),
        Some(session.colour()),
        vec![
            Destination { to: pos(4, 2), promotion: false },
            Destination { to: pos(4, 3), promotion: false },
        ],
    );
    assert_eq!(first, Action::Nothing);
    session.square_clicked(pos(4, 3), None, vec![])
}

#[test]
fn new_session_white_is_idle_black_waits() {
    let white = white_joiner();
    assert_eq!(white.state(), TurnState::Idle);
    assert_eq!(white.active_colour(), Colour::White);
    assert!(white.owns_turn());
    assert_eq!(white.expects(), Expected::Nothing);
    assert_eq!(white.role(), Role::Joiner);
    assert_eq!(white.name().as_str(), "ann");
    assert_eq!(white.peer_name().as_deref(), Some("bob"));

    let black = black_host();
    assert_eq!(black.state(), TurnState::AwaitingPeerMove);
    assert_eq!(black.active_colour(), Colour::White);
    assert!(!black.owns_turn());
    assert_eq!(black.expects(), Expected::Move);
    assert_eq!(black.peer_name(), &None);
    assert!(!black.is_over());
}

#[test]
fn handshake_flag_gives_the_endpoints_different_colours() {
    assert_eq!(assigned_colour(Role::Joiner, true), Colour::White);
    assert_eq!(assigned_colour(Role::Host, true), Colour::Black);
    assert_eq!(assigned_colour(Role::Joiner, false), Colour::Black);
    assert_eq!(assigned_colour(Role::Host, false), Colour::White);
}

#[test]
fn end_to_end_e2_e4() {
    let mut joiner = white_joiner();
    let mut host = black_host();

    let sent = submit_e2_e4(&mut joiner);
    let wire = MoveMessage {
        from: sq(4, 1),
        to: sq(4, 3),
        forfeit: false,
        offer_draw: false,
        promotion: None,
    };
    assert_eq!(sent, Action::SendMove(wire));
    assert_eq!(joiner.expects(), Expected::Ack);
    assert_eq!(
        joiner.state(),
        TurnState::AwaitingPeerAck {
            sent: Move { from: pos(4, 1), to: pos(4, 3), promotion_choice: None }
        }
    );

    let asked = host.received(&Incoming::Move(wire));
    assert_eq!(asked, Action::ApplyPeerMove { from: sq(4, 1), to: sq(4, 3), promotion: None });
    assert_eq!(host.state(), TurnState::ApplyingPeerMove);

    let reply = host.peer_move_applied(true, GameState::Active);
    let ack = AckMessage { ok: true, end_state: None };
    assert_eq!(reply, Action::SendAck(ack));
    assert_eq!(host.state(), TurnState::Idle);

    let applied = joiner.received(&Incoming::Ack(ack));
    assert_eq!(
        applied,
        Action::ApplyOwnMove(Move { from: pos(4, 1), to: pos(4, 3), promotion_choice: None })
    );
    assert_eq!(joiner.state(), TurnState::AwaitingPeerMove);

    assert_eq!(joiner.active_colour(), Colour::Black);
    assert_eq!(host.active_colour(), Colour::Black);
    assert!(host.owns_turn());
    assert!(!joiner.owns_turn());
}

#[test]
fn turn_comes_back_after_two_plies() {
    let mut joiner = white_joiner();
    let mut host = black_host();
    let first = match submit_e2_e4(&mut joiner) {
        Action::SendMove(m) => m,
        other => panic!("no move sent: {:?}", other),
    };
    host.received(&Incoming::Move(first));
    let ack = match host.peer_move_applied(true, GameState::Active) {
        Action::SendAck(a) => a,
        other => panic!("no ack sent: {:?}", other),
    };
    joiner.received(&Incoming::Ack(ack));

    let click = host.square_clicked(
        pos(4, 6),
        Some(Colour::Black),
        vec![Destination { to: pos(4, 4), promotion: false }],
    );
    assert_eq!(click, Action::Nothing);
    let second = match host.square_clicked(pos(4, 4), None, vec![]) {
        Action::SendMove(m) => m,
        other => panic!("no move sent: {:?}", other),
    };
    assert_eq!(second.from, sq(4, 6));
    assert_eq!(second.to, sq(4, 4));
    assert_eq!(
        joiner.received(&Incoming::Move(second)),
        Action::ApplyPeerMove { from: sq(4, 6), to: sq(4, 4), promotion: None }
    );
    let ack = match joiner.peer_move_applied(true, GameState::Check) {
        Action::SendAck(a) => a,
        other => panic!("no ack sent: {:?}", other),
    };
    assert_eq!(ack, AckMessage { ok: true, end_state: None });
    host.received(&Incoming::Ack(ack));
    assert_eq!(joiner.active_colour(), Colour::White);
    assert_eq!(host.active_colour(), Colour::White);
    assert_eq!(joiner.state(), TurnState::Idle);
    assert_eq!(host.state(), TurnState::AwaitingPeerMove);
}

#[test]
fn rejected_move_changes_nothing() {
    let mut joiner = white_joiner();
    let mut host = black_host();
    let wire = match submit_e2_e4(&mut joiner) {
        Action::SendMove(m) => m,
        other => panic!("no move sent: {:?}", other),
    };
    host.received(&Incoming::Move(wire));
    let reply = host.peer_move_applied(false, GameState::Active);
    assert_eq!(reply, Action::SendAck(AckMessage { ok: false, end_state: None }));
    assert_eq!(host.state(), TurnState::AwaitingPeerMove);
    assert_eq!(host.active_colour(), Colour::White);

    let after = joiner.received(&Incoming::Ack(AckMessage { ok: false, end_state: None }));
    assert_eq!(after, Action::Nothing);
    assert_eq!(joiner.state(), TurnState::Idle);
    assert_eq!(joiner.active_colour(), Colour::White);
    assert!(joiner.owns_turn());
}

#[test]
fn move_off_the_board_is_rejected_at_once() {
    let mut host = black_host();
    let wire = MoveMessage {
        from: sq(4, 1),
        to: sq(8, 3),
        forfeit: false,
        offer_draw: false,
        promotion: None,
    };
    let reply = host.received(&Incoming::Move(wire));
    assert_eq!(reply, Action::SendAck(AckMessage { ok: false, end_state: None }));
    assert_eq!(host.state(), TurnState::AwaitingPeerMove);
    assert!(sq(7, 7).on_board());
    assert!(!sq(0, 8).on_board());
}

#[test]
fn noise_is_dropped_while_waiting_for_a_move() {
    let mut host = black_host();
    assert_eq!(host.received(&Incoming::Noise), Action::Nothing);
    assert_eq!(
        host.received(&Incoming::Ack(AckMessage { ok: true, end_state: None })),
        Action::Nothing
    );
    assert_eq!(host.state(), TurnState::AwaitingPeerMove);
    assert_eq!(host.active_colour(), Colour::White);
    let wire = MoveMessage {
        from: sq(3, 1),
        to: sq(3, 3),
        forfeit: false,
        offer_draw: false,
        promotion: None,
    };
    assert_eq!(
        host.received(&Incoming::Move(wire)),
        Action::ApplyPeerMove { from: sq(3, 1), to: sq(3, 3), promotion: None }
    );
}

#[test]
fn noise_is_dropped_while_waiting_for_an_ack() {
    let mut joiner = white_joiner();
    let wire = match submit_e2_e4(&mut joiner) {
        Action::SendMove(m) => m,
        other => panic!("no move sent: {:?}", other),
    };
    let waiting = joiner.state();
    assert_eq!(joiner.received(&Incoming::Noise), Action::Nothing);
    assert_eq!(joiner.received(&Incoming::Move(wire)), Action::Nothing);
    assert_eq!(joiner.state(), waiting);
    assert_eq!(joiner.square_clicked(pos(0, 1), Some(Colour::White), vec![]), Action::Nothing);
    assert_eq!(joiner.promotion_chosen(PromotionPiece::Queen), Action::Nothing);
    assert_eq!(joiner.state(), waiting);
}

#[test]
fn promotion_is_held_until_the_kind_is_chosen() {
    let mut joiner = white_joiner();
    let mut host = black_host();
    joiner.square_clicked(
        pos(0, 6),
        Some(Colour::White),
        vec![Destination { to: pos(0, 7), promotion: true }],
    );
    assert_eq!(joiner.highlighted_squares(), vec![56u32]);
    let chosen = joiner.square_clicked(pos(0, 7), None, vec![]);
    assert_eq!(chosen, Action::Nothing);
    let held = Move { from: pos(0, 6), to: pos(0, 7), promotion_choice: None };
    assert_eq!(joiner.state(), TurnState::AwaitingPromotionChoice { candidate: held });
    assert_eq!(joiner.expects(), Expected::Nothing);
    assert_eq!(joiner.square_clicked(pos(1, 1), Some(Colour::White), vec![]), Action::Nothing);
    assert_eq!(joiner.state(), TurnState::AwaitingPromotionChoice { candidate: held });

    let sent = joiner.promotion_chosen(PromotionPiece::Queen);
    let wire = MoveMessage {
        from: sq(0, 6),
        to: sq(0, 7),
        forfeit: false,
        offer_draw: false,
        promotion: Some(PromotionPiece::Queen),
    };
    assert_eq!(sent, Action::SendMove(wire));
    assert_eq!(
        host.received(&Incoming::Move(wire)),
        Action::ApplyPeerMove {
            from: sq(0, 6),
            to: sq(0, 7),
            promotion: Some(PromotionPiece::Queen)
        }
    );
    host.peer_move_applied(true, GameState::Active);
    let applied = joiner.received(&Incoming::Ack(AckMessage { ok: true, end_state: None }));
    assert_eq!(
        applied,
        Action::ApplyOwnMove(Move {
            from: pos(0, 6),
            to: pos(0, 7),
            promotion_choice: Some(PromotionPiece::Queen)
        })
    );
}

#[test]
fn checkmate_ends_the_game_on_both_sides() {
    let mut joiner = white_joiner();
    let mut host = black_host();
    let wire = match submit_e2_e4(&mut joiner) {
        Action::SendMove(m) => m,
        other => panic!("no move sent: {:?}", other),
    };
    host.received(&Incoming::Move(wire));
    let reply = host.peer_move_applied(true, GameState::GameOver);
    let ack = AckMessage { ok: true, end_state: Some(EndState::CheckMate) };
    assert_eq!(reply, Action::SendAck(ack));
    assert_eq!(host.state(), TurnState::GameOver);
    assert!(host.is_over());

    let applied = joiner.received(&Incoming::Ack(ack));
    assert_eq!(
        applied,
        Action::ApplyOwnMove(Move { from: pos(4, 1), to: pos(4, 3), promotion_choice: None })
    );
    assert_eq!(joiner.state(), TurnState::GameOver);
    assert!(joiner.is_over());
    assert_eq!(joiner.expects(), Expected::Nothing);

    assert_eq!(
        joiner.square_clicked(
            pos(4, 1),
            Some(Colour::White),
            vec![Destination { to: pos(4, 2), promotion: false }]
        ),
        Action::Nothing
    );
    assert_eq!(joiner.promotion_chosen(PromotionPiece::Rook), Action::Nothing);
    assert_eq!(joiner.received(&Incoming::Move(wire)), Action::Nothing);
    assert_eq!(joiner.peer_move_applied(true, GameState::Active), Action::Nothing);
    assert_eq!(joiner.state(), TurnState::GameOver);
    assert_eq!(host.square_clicked(pos(4, 6), Some(Colour::Black), vec![]), Action::Nothing);
    assert_eq!(host.state(), TurnState::GameOver);
}

#[test]
fn draw_in_the_ack_ends_the_game_for_the_owner() {
    let mut joiner = white_joiner();
    submit_e2_e4(&mut joiner);
    joiner.received(&Incoming::Ack(AckMessage { ok: true, end_state: Some(EndState::Draw) }));
    assert_eq!(joiner.state(), TurnState::GameOver);
}

#[test]
fn click_selects_only_own_chessman_on_own_turn() {
    let mut white = white_joiner();
    assert_eq!(
        white.square_clicked(
            pos(4, 6),
            Some(Colour::Black),
            vec![Destination { to: pos(4, 5), promotion: false }]
        ),
        Action::Nothing
    );
    assert_eq!(white.state(), TurnState::Idle);
    assert_eq!(white.square_clicked(pos(4, 3), None, vec![]), Action::Nothing);
    assert_eq!(white.state(), TurnState::Idle);
    assert!(white.highlighted_squares().is_empty());

    let mut black = black_host();
    assert_eq!(
        black.square_clicked(
            pos(4, 6),
            Some(Colour::Black),
            vec![Destination { to: pos(4, 5), promotion: false }]
        ),
        Action::Nothing
    );
    assert_eq!(black.state(), TurnState::AwaitingPeerMove);
}

#[test]
fn click_off_the_highlights_drops_the_selection() {
    let mut white = white_joiner();
    white.square_clicked(
        pos(4, 1),
        Some(Colour::White),
        vec![
            Destination { to: pos(4, 2), promotion: false },
            Destination { to: pos(4, 3), promotion: false },
        ],
    );
    assert_eq!(white.state(), TurnState::SquareSelected { from: pos(4, 1) });
    assert_eq!(white.highlighted_squares(), vec![20u32, 28u32]);
    assert_eq!(
        white.square_clicked(
            pos(3, 1),
            Some(Colour::White),
            vec![Destination { to: pos(3, 2), promotion: false }]
        ),
        Action::Nothing
    );
    assert_eq!(white.state(), TurnState::Idle);
    assert!(white.highlighted_squares().is_empty());
}

#[test]
fn transport_failure_ends_the_session() {
    let mut host = black_host();
    host.transport_failed();
    assert_eq!(host.state(), TurnState::Disconnected);
    assert!(host.is_over());
    assert_eq!(host.expects(), Expected::Nothing);
    assert_eq!(host.received(&Incoming::Noise), Action::Nothing);
    assert_eq!(host.state(), TurnState::Disconnected);

    let mut joiner = white_joiner();
    submit_e2_e4(&mut joiner);
    joiner.received(&Incoming::Ack(AckMessage {
        ok: true,
        end_state: Some(EndState::CheckMate),
    }));
    joiner.transport_failed();
    assert_eq!(joiner.state(), TurnState::GameOver);
}

#[test]
fn ruling_outside_its_state_is_ignored() {
    let mut white = white_joiner();
    assert_eq!(white.peer_move_applied(true, GameState::GameOver), Action::Nothing);
    assert_eq!(white.state(), TurnState::Idle);
    assert_eq!(white.active_colour(), Colour::White);
}
