use chess_peer::launch::{parse_launch, Launch, LaunchError};
use chess_peer::message::{AckMessage, EndState, HandshakeMessage, Incoming, MoveMessage, Square};
use chess_peer::network::{
    await_ack, await_move, chess_lib_state_to_network_state, do_move, send_ack, start_client,
    start_server, LOCAL_HOST,
};
use chess_peer::rules::{Colour, GameState, Move, PieceType, Position, PromotionPiece};
use chess_peer::session::Role;

fn handshake(is_white: bool, name: Option<&str>) -> HandshakeMessage {
    HandshakeMessage {
        is_white,
        name: name.map(String::from),
        fen: None,
        time: None,
        inc: None,
    }
}

#[test]
fn engine_state_maps_to_terminal_state() {
    assert_eq!(chess_lib_state_to_network_state(GameState::Active), None);
    assert_eq!(chess_lib_state_to_network_state(GameState::Check), None);
    assert_eq!(
        chess_lib_state_to_network_state(GameState::GameOver),
        Some(EndState::CheckMate)
    );
}

#[test]
fn do_move_builds_the_wire_message() {
    let mv = Move {
        from: Position { file: 4, rank: 1, idx: 12 },
        to: Position { file: 4, rank: 3, idx: 28 },
        promotion_choice: None,
    };
    assert_eq!(
        do_move(mv, None),
        MoveMessage {
            from: Square { file: 4, rank: 1 },
            to: Square { file: 4, rank: 3 },
            forfeit: false,
            offer_draw: false,
            promotion: None,
        }
    );
    let promoted = do_move(mv, Some(PromotionPiece::Knight));
    assert_eq!(promoted.promotion, Some(PromotionPiece::Knight));
    assert!(!promoted.forfeit);
    assert!(!promoted.offer_draw);
}

#[test]
fn await_ack_takes_only_an_ack() {
    let ack = AckMessage { ok: false, end_state: Some(EndState::Draw) };
    assert_eq!(await_ack(&Incoming::Ack(ack)), Some((false, Some(EndState::Draw))));
    assert_eq!(await_ack(&Incoming::Noise), None);
    assert_eq!(await_ack(&Incoming::Handshake(handshake(true, None))), None);
    let m = MoveMessage {
        from: Square { file: 0, rank: 0 },
        to: Square { file: 1, rank: 1 },
        forfeit: false,
        offer_draw: false,
        promotion: None,
    };
    assert_eq!(await_ack(&Incoming::Move(m)), None);
}

#[test]
fn await_move_takes_only_a_move() {
    let m = MoveMessage {
        from: Square { file: 6, rank: 6 },
        to: Square { file: 6, rank: 7 },
        forfeit: true,
        offer_draw: true,
        promotion: Some(PromotionPiece::Bishop),
    };
    assert_eq!(
        await_move(&Incoming::Move(m)),
        Some((
            Square { file: 6, rank: 6 },
            Square { file: 6, rank: 7 },
            Some(PromotionPiece::Bishop)
        ))
    );
    assert_eq!(await_move(&Incoming::Noise), None);
    assert_eq!(
        await_move(&Incoming::Ack(AckMessage { ok: true, end_state: None })),
        None
    );
}

#[test]
fn move_sent_is_move_received() {
    let mv = Move {
        from: Position { file: 1, rank: 6, idx: 49 },
        to: Position { file: 1, rank: 7, idx: 57 },
        promotion_choice: Some(PromotionPiece::Rook),
    };
    let wire = do_move(mv, mv.promotion_choice);
    assert_eq!(
        await_move(&Incoming::Move(wire)),
        Some((
            Square { file: 1, rank: 6 },
            Square { file: 1, rank: 7 },
            Some(PromotionPiece::Rook)
        ))
    );
}

#[test]
fn send_ack_builds_the_ack() {
    assert_eq!(send_ack(true, None), AckMessage { ok: true, end_state: None });
    assert_eq!(
        send_ack(false, Some(EndState::CheckMate)),
        AckMessage { ok: false, end_state: Some(EndState::CheckMate) }
    );
}

#[test]
fn start_server_listens_locally_and_gives_the_peer_black() {
    let (address, start) = start_server("5000", "host");
    assert_eq!(LOCAL_HOST, "127.0.0.1");
    assert_eq!(address, "127.0.0.1:5000");
    assert_eq!(start, handshake(false, Some("host")));
}

#[test]
fn start_client_reads_colour_and_name() {
    assert_eq!(
        start_client(&Incoming::Handshake(handshake(true, Some("host")))),
        Some((Some(String::from("host")), Colour::White))
    );
    assert_eq!(
        start_client(&Incoming::Handshake(handshake(false, None))),
        Some((None, Colour::Black))
    );
    assert_eq!(start_client(&Incoming::Noise), None);
    assert_eq!(
        start_client(&Incoming::Ack(AckMessage { ok: true, end_state: None })),
        None
    );
}

#[test]
fn host_and_joiner_agree_on_the_handshake() {
    let (_, start) = start_server("1", "h");
    let joined = start_client(&Incoming::Handshake(start.clone()));
    assert_eq!(joined, Some((Some(String::from("h")), Colour::Black)));
    assert_eq!(
        chess_peer::session::assigned_colour(Role::Host, start.is_white),
        Colour::White
    );
}

#[test]
fn colours_and_kinds() {
    assert_eq!(Colour::White.opposite(), Colour::Black);
    assert_eq!(Colour::Black.opposite(), Colour::White);
    assert!(Colour::Black.is_black());
    assert!(!Colour::White.is_black());
    assert_eq!(PromotionPiece::Queen.piece_type(), PieceType::Queen);
    assert_eq!(PromotionPiece::Rook.piece_type(), PieceType::Rook);
    assert_eq!(PromotionPiece::Bishop.piece_type(), PieceType::Bishop);
    assert_eq!(PromotionPiece::Knight.piece_type(), PieceType::Knight);
}

fn args(words: &[&str]) -> Vec<String> {
    words.iter().map(|w| String::from(*w)).collect()
}

#[test]
fn launch_as_host_and_as_joiner() {
    assert_eq!(
        parse_launch(&args(&["chess", "s", "5000", "ann"])),
        Ok(Launch { role: Role::Host, address: String::from("5000"), name: String::from("ann") })
    );
    assert_eq!(
        parse_launch(&args(&["chess", "c", "10.0.0.1:5000", "bob", "more"])),
        Ok(Launch {
            role: Role::Joiner,
            address: String::from("10.0.0.1:5000"),
            name: String::from("bob")
        })
    );
}

#[test]
fn launch_errors() {
    assert_eq!(parse_launch(&args(&[])), Err(LaunchError::MissingArguments));
    assert_eq!(parse_launch(&args(&["chess", "s", "5000"])), Err(LaunchError::MissingArguments));
    assert_eq!(parse_launch(&args(&["chess", "x", "5000", "ann"])), Err(LaunchError::UnknownRole));
    assert_eq!(parse_launch(&args(&["chess", "ss", "5000", "ann"])), Err(LaunchError::UnknownRole));
    assert_eq!(parse_launch(&args(&["chess", "", "5000", "ann"])), Err(LaunchError::UnknownRole));
    assert_eq!(LaunchError::MissingArguments.message(), "Invalid command line arguments.");
    assert_eq!(
        LaunchError::UnknownRole.message(),
        "Invalid command line arguments. Please select if server or client with s or c as first argument"
    );
}
