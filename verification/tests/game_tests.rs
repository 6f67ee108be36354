use chess5d_reader::game::{
    board_lines, board_printable, generate_turns, get_boards_where_field_has_value, get_field_name_from_offset,
    get_field_offset_from_name, get_field_value_in_board_by_name, get_turns_string,
    move_for_board, move_for_board_readable, turns_readable,
};
use chess5d_reader::game_data::{
    board_fields, FieldNameWithValue, GameBoard, GamePiece, PieceOwner, PieceType, BOARD_NUMBER,
    CREATED_BOARD_NUMBER, NEXT_MOVE_DEST_COL, NEXT_MOVE_DEST_ROW, NEXT_MOVE_DEST_TIME,
    NEXT_MOVE_DEST_UNIVERSE, NEXT_MOVE_START_COL, NEXT_MOVE_START_ROW, PREV_BOARD_NUMBER,
    TIMELINE_NUMBER, TIME_POSITION,
};
use chess5d_reader::notation::{Location, Move, Piece, Player, Turn};

fn empty() -> GamePiece {
    GamePiece { piece_type: PieceType::Nothing, owner: PieceOwner::NoOwner }
}

/// An 8x8 board whose fields all read 0 but for `values`.
fn board(values: &[(&'static str, i32)], player_to_move: u32) -> GameBoard {
    let mut fields = Vec::new();
    for field in board_fields() {
        let mut value = 0;
        for (name, v) in values {
            if *name == field.name {
                value = *v;
            }
        }
        fields.push(FieldNameWithValue { name: field.name, value });
    }
    GameBoard {
        player_to_move,
        width: 8,
        height: 8,
        pieces: vec![vec![empty(); 8]; 8],
        fields,
    }
}

fn piece(piece_type: PieceType, owner: PieceOwner) -> GamePiece {
    GamePiece { piece_type, owner }
}

#[test]
fn field_name_from_offset_finds_names() {
    assert_eq!(get_field_name_from_offset(0), "board number");
    assert_eq!(get_field_name_from_offset(160), "player to move");
    assert_eq!(get_field_name_from_offset(224), "last move end col");
    assert_eq!(get_field_name_from_offset(1), "");
    assert_eq!(get_field_name_from_offset(1000), "");
}

#[test]
fn field_offset_from_name_finds_offsets() {
    assert_eq!(get_field_offset_from_name("board id"), 144);
    assert_eq!(get_field_offset_from_name("board number of previous board"), 200);
    assert_eq!(get_field_offset_from_name("no such field"), 0);
    assert_eq!(get_field_offset_from_name(""), 0);
}

#[test]
fn field_name_and_offset_lookups_undo_each_other() {
    let fields = board_fields();
    assert_eq!(fields.len(), 24);
    for field in &fields {
        assert_eq!(get_field_offset_from_name(get_field_name_from_offset(field.offset)), field.offset);
        assert_eq!(get_field_name_from_offset(get_field_offset_from_name(field.name)), field.name);
    }
}

#[test]
fn field_value_by_name_is_first_match_or_minus_one() {
    let b = board(&[(BOARD_NUMBER, 7), (TIMELINE_NUMBER, -3)], 0);
    assert_eq!(get_field_value_in_board_by_name(&b, BOARD_NUMBER), 7);
    assert_eq!(get_field_value_in_board_by_name(&b, TIMELINE_NUMBER), -3);
    assert_eq!(get_field_value_in_board_by_name(&b, "missing"), -1);
    let mut twice = b.clone();
    twice.fields.push(FieldNameWithValue { name: BOARD_NUMBER, value: 99 });
    assert_eq!(get_field_value_in_board_by_name(&twice, BOARD_NUMBER), 7);
}

#[test]
fn board_clone_keeps_everything() {
    let mut b = board(&[(BOARD_NUMBER, 4)], 1);
    b.pieces[2][3] = piece(PieceType::Queen, PieceOwner::Black);
    let c = b.clone();
    assert_eq!(c.player_to_move, 1);
    assert_eq!(c.width, 8);
    assert_eq!(c.height, 8);
    assert_eq!(c.pieces, b.pieces);
    assert_eq!(c.fields.len(), b.fields.len());
    for (x, y) in c.fields.iter().zip(b.fields.iter()) {
        assert_eq!(x.name, y.name);
        assert_eq!(x.value, y.value);
    }
}

#[test]
fn boards_where_field_has_value_returns_first() {
    let boards = vec![
        board(&[(BOARD_NUMBER, 0), (TIMELINE_NUMBER, 10)], 0),
        board(&[(BOARD_NUMBER, 1), (TIMELINE_NUMBER, 11)], 0),
        board(&[(BOARD_NUMBER, 1), (TIMELINE_NUMBER, 12)], 0),
    ];
    let found = get_boards_where_field_has_value(&boards, BOARD_NUMBER, 1).unwrap();
    assert_eq!(get_field_value_in_board_by_name(&found, TIMELINE_NUMBER), 11);
    assert!(get_boards_where_field_has_value(&boards, BOARD_NUMBER, 5).is_none());
    assert!(get_boards_where_field_has_value(&boards, "missing", 0).is_none());
    assert!(get_boards_where_field_has_value(&vec![], BOARD_NUMBER, 0).is_none());
}

/// The opening position with white to move, then e4, then e5.
fn two_moves() -> Vec<GameBoard> {
    let mut b0 = board(
        &[
            (BOARD_NUMBER, 0),
            (PREV_BOARD_NUMBER, -1),
            (TIME_POSITION, 1),
            (NEXT_MOVE_START_ROW, 1),
            (NEXT_MOVE_START_COL, 4),
            (NEXT_MOVE_DEST_ROW, 3),
            (NEXT_MOVE_DEST_COL, 4),
            (NEXT_MOVE_DEST_TIME, 1),
        ],
        0,
    );
    b0.pieces[1][4] = piece(PieceType::Pawn, PieceOwner::White);
    let mut b1 = board(
        &[
            (BOARD_NUMBER, 1),
            (PREV_BOARD_NUMBER, 0),
            (TIME_POSITION, 1),
            (NEXT_MOVE_START_ROW, 6),
            (NEXT_MOVE_START_COL, 4),
            (NEXT_MOVE_DEST_ROW, 4),
            (NEXT_MOVE_DEST_COL, 4),
            (NEXT_MOVE_DEST_TIME, 1),
        ],
        1,
    );
    b1.pieces[6][4] = piece(PieceType::Pawn, PieceOwner::Black);
    let b2 = board(&[(BOARD_NUMBER, 2), (PREV_BOARD_NUMBER, 1), (TIME_POSITION, 2)], 0);
    vec![b0, b1, b2]
}

#[test]
fn move_for_board_reads_a_plain_move() {
    let boards = two_moves();
    assert!(move_for_board_readable(&boards[0], &boards));
    let m = move_for_board(&boards[0], &boards);
    assert_eq!(m.start_loc, Location { universe: 0, time: 1, row: 1, col: 4 });
    assert_eq!(m.end_loc, Location { universe: 0, time: 1, row: 3, col: 4 });
    assert_eq!(m.start_piece, Piece::Pawn);
    assert_eq!(m.end_piece, Piece::Pawn);
    assert!(!m.is_jump);
    assert!(!m.is_branching);
    assert!(!m.does_capture);
    assert!(!m.moves_present);
}

/// A knight on (0T1) b1 jumps back to (0T0) c3, taking a piece and opening
/// timeline 1 on board 5, which continues board 3.
fn jump_boards() -> Vec<GameBoard> {
    let mut from = board(
        &[
            (BOARD_NUMBER, 4),
            (TIMELINE_NUMBER, 0),
            (TIME_POSITION, 1),
            (NEXT_MOVE_START_ROW, 0),
            (NEXT_MOVE_START_COL, 1),
            (NEXT_MOVE_DEST_UNIVERSE, 0),
            (NEXT_MOVE_DEST_TIME, 0),
            (NEXT_MOVE_DEST_ROW, 2),
            (NEXT_MOVE_DEST_COL, 2),
            (CREATED_BOARD_NUMBER, 5),
        ],
        0,
    );
    from.pieces[0][1] = piece(PieceType::Knight, PieceOwner::White);
    let mut arrival = board(&[(BOARD_NUMBER, 3), (TIMELINE_NUMBER, 0), (TIME_POSITION, 0)], 0);
    arrival.pieces[2][2] = piece(PieceType::Bishop, PieceOwner::Black);
    let created = board(&[(BOARD_NUMBER, 5), (TIMELINE_NUMBER, 1), (PREV_BOARD_NUMBER, 3)], 1);
    vec![arrival, from, created]
}

#[test]
fn move_for_board_reads_a_branching_capture() {
    let boards = jump_boards();
    assert!(move_for_board_readable(&boards[1], &boards));
    let m = move_for_board(&boards[1], &boards);
    assert!(m.is_jump);
    assert!(m.is_branching);
    assert!(m.does_capture);
    assert_eq!(m.start_piece, Piece::Knight);
    assert_eq!(m.end_loc, Location { universe: 0, time: 0, row: 2, col: 2 });
    let turn = Turn { moves: vec![m], player: Player::White };
    assert_eq!(turn.to_notation(), "(0T1)Nb1>>x(0T0)c3 ");
}

#[test]
fn move_for_board_jump_without_branch_or_capture() {
    let mut boards = jump_boards();
    boards[0].pieces[2][2] = empty();
    boards[2].fields[1].value = 0; // the created board stays on timeline 0
    let m = move_for_board(&boards[1], &boards);
    assert!(m.is_jump);
    assert!(!m.is_branching);
    assert!(!m.does_capture);
    let turn = Turn { moves: vec![m], player: Player::White };
    assert_eq!(turn.to_notation(), "(0T1)Nb1>(0T0)c3 ");
}

#[test]
fn unreadable_moves_are_detected() {
    let mut boards = jump_boards();
    boards[2].fields[0].value = 6; // the created board is missing
    assert!(!move_for_board_readable(&boards[1], &boards));
    let mut off_board = two_moves();
    off_board[0].fields[8].value = 9; // start row beyond the board
    assert!(!move_for_board_readable(&off_board[0], &off_board));
    assert!(!turns_readable(&off_board));
    assert!(turns_readable(&two_moves()));
    // a board that is looked at lacks a row, so it cannot be printed
    let mut short = two_moves();
    let last = short.len() - 1;
    short[last].pieces.pop();
    assert!(!turns_readable(&short));
    // board 0 is only read as a previous board, never printed
    let mut first_short = two_moves();
    first_short[0].pieces.pop();
    assert!(turns_readable(&first_short));
}

#[test]
fn generate_turns_pairs_moves_into_turns() {
    let boards = two_moves();
    assert!(turns_readable(&boards));
    let turns = generate_turns(&boards);
    assert_eq!(turns.len(), 2);
    assert_eq!(turns[0].player, Player::White);
    assert_eq!(turns[1].player, Player::Black);
    assert_eq!(turns[0].moves.len(), 1);
    assert_eq!(turns[1].moves.len(), 1);
    assert_eq!(turns[0].moves[0].end_loc.row, 3);
    assert_eq!(turns[1].moves[0].end_loc.row, 4);
    assert_eq!(get_turns_string(&turns), "1. (0T1)Pe4 / (0T1)Pe5 \n");
}

#[test]
fn generate_turns_of_a_single_board() {
    let boards = vec![board(&[(BOARD_NUMBER, 0)], 0)];
    let turns = generate_turns(&boards);
    assert_eq!(turns.len(), 1);
    assert_eq!(turns[0].player, Player::White);
    assert!(turns[0].moves.is_empty());
}

#[test]
fn generate_turns_stops_at_a_missing_board() {
    let mut boards = two_moves();
    boards[2].fields[0].value = 9; // board 2 is missing
    let turns = generate_turns(&boards);
    // board 1 is read, board 2 is missing: the pending turn is dropped
    assert_eq!(turns.len(), 0);
}

#[test]
fn generated_turns_alternate_white_first() {
    let mut boards = two_moves();
    let mut b3 = board(&[(BOARD_NUMBER, 3), (PREV_BOARD_NUMBER, 2), (TIME_POSITION, 2)], 1);
    b3.pieces[0][0] = empty();
    boards[2].fields[8].value = 0;
    boards[2].fields[9].value = 6;
    boards[2].fields[13].value = 2;
    boards[2].fields[14].value = 5;
    boards[2].fields[11].value = 2;
    boards[2].pieces[0][6] = piece(PieceType::Knight, PieceOwner::White);
    boards.push(b3);
    let turns = generate_turns(&boards);
    for (i, t) in turns.iter().enumerate() {
        let expected = if i % 2 == 0 { Player::White } else { Player::Black };
        assert_eq!(t.player, expected);
        if i > 0 {
            assert!(!t.moves.is_empty());
        }
    }
    assert_eq!(turns.len(), 3);
    assert_eq!(get_turns_string(&turns), "1. (0T1)Pe4 / (0T1)Pe5 \n2. (0T2)Nf3 / ");
}

#[test]
fn turns_string_numbers_pairs() {
    let m = |row: i32| Move {
        start_loc: Location { universe: -1, time: 12, row: 0, col: 0 },
        end_loc: Location { universe: -1, time: 12, row, col: 7 },
        start_piece: Piece::RoyalQueen,
        end_piece: Piece::RoyalQueen,
        is_jump: false,
        is_branching: false,
        does_capture: false,
        moves_present: false,
    };
    let turns = vec![
        Turn { moves: vec![m(0)], player: Player::White },
        Turn { moves: vec![m(1), m(2)], player: Player::Black },
        Turn { moves: vec![], player: Player::White },
    ];
    assert_eq!(
        get_turns_string(&turns),
        "1. (-1T12)RQh1 / (-1T12)RQh2 (-1T12)RQh3 \n2. / "
    );
    assert_eq!(get_turns_string(&vec![]), "");
}

#[test]
fn board_lines_print_fields_and_rows() {
    let mut b = GameBoard {
        player_to_move: 1,
        width: 2,
        height: 2,
        pieces: vec![vec![empty(); 2]; 2],
        fields: vec![
            FieldNameWithValue { name: BOARD_NUMBER, value: 3 },
            FieldNameWithValue { name: TIMELINE_NUMBER, value: -2 },
        ],
    };
    b.pieces[0][0] = piece(PieceType::King, PieceOwner::White);
    b.pieces[1][1] = piece(PieceType::Unicorn, PieceOwner::Black);
    let lines = board_lines(&b);
    assert_eq!(
        lines,
        vec![
            "board number = 3".to_string(),
            "timeline number = -2".to_string(),
            "player_to_move = 1".to_string(),
            "|  |bu|".to_string(),
            "|wK|  |".to_string(),
        ]
    );
}

#[test]
fn board_lines_of_a_board_without_columns() {
    let b = GameBoard { player_to_move: 0, width: 0, height: 3, pieces: vec![vec![]; 3], fields: vec![] };
    assert_eq!(board_lines(&b), vec!["player_to_move = 0".to_string()]);
}

#[test]
fn board_printable_checks_rows_and_columns() {
    assert!(board_printable(&board(&[], 0)));
    let no_columns = GameBoard { player_to_move: 0, width: 0, height: 3, pieces: vec![], fields: vec![] };
    assert!(board_printable(&no_columns));
    let short_row = GameBoard {
        player_to_move: 0,
        width: 2,
        height: 2,
        pieces: vec![vec![empty(); 2], vec![empty(); 1]],
        fields: vec![],
    };
    assert!(!board_printable(&short_row));
    let missing_row = GameBoard {
        player_to_move: 0,
        width: 2,
        height: 3,
        pieces: vec![vec![empty(); 2]; 2],
        fields: vec![],
    };
    assert!(!board_printable(&missing_row));
}

fn loc(universe: i32, time: i32, row: i32, col: i32) -> Location {
    Location { universe, time, row, col }
}

#[test]
fn turn_notation_writes_each_move_and_a_space() {
    let plain = Move {
        start_loc: loc(0, 3, 1, 4),
        end_loc: loc(0, 3, 3, 4),
        start_piece: Piece::Pawn,
        end_piece: Piece::Pawn,
        is_jump: false,
        is_branching: false,
        does_capture: false,
        moves_present: false,
    };
    let jump = Move {
        start_loc: loc(-2, 10, 0, 9),
        end_loc: loc(1, -4, 7, 7),
        start_piece: Piece::CommongKing,
        end_piece: Piece::CommongKing,
        is_jump: true,
        is_branching: false,
        does_capture: true,
        moves_present: true,
    };
    let nothing = Move { start_piece: Piece::Nothing, ..plain };
    let both = Turn { moves: vec![plain, jump], player: Player::White };
    assert_eq!(both.to_notation(), "(0T3)Pe4 (-2T10)CK1>x(1T-4)h8~ ");
    // the notation of a turn is that of its moves one after another
    let first = Turn { moves: vec![plain], player: Player::White };
    let second = Turn { moves: vec![jump], player: Player::White };
    assert_eq!(both.to_notation(), first.to_notation() + &second.to_notation());
    assert_eq!(Turn { moves: vec![nothing], player: Player::Black }.to_notation(), "(0T3)e4 ");
    assert_eq!(Turn { moves: vec![], player: Player::Black }.to_notation(), "");
}
