//! Looking up fields and boards, and reconstructing the moves and turns of a
//! game from its boards.

use vstd::prelude::*;
use crate::game_data::{
    board_fields, board_fields_spec, lemma_board_fields_distinct, BoardView, Field,
    FieldNameWithValue, GameBoard, NUM_BOARD_FIELDS, notation_piece, PieceType, BOARD_NUMBER,
    TIMELINE_NUMBER, TIME_POSITION, NEXT_MOVE_START_ROW, NEXT_MOVE_START_COL, NEXT_MOVE_DEST_ROW,
    NEXT_MOVE_DEST_COL, NEXT_MOVE_DEST_UNIVERSE, NEXT_MOVE_DEST_TIME,
    CREATED_BOARD_NUMBER, PREV_BOARD_NUMBER, GamePiece, piece_owner_char, piece_type_char,
};
use crate::notation::{
    moves_notation, notation_ok, other_player, Location, Move, Piece, Player, Turn,
};
use crate::text::{int_decimal, push_char, push_i32_decimal};
use vstd::string::*;
use crate::text::str_eq;

verus! {

/// The index of the first field of `fields`, from index `start` on, whose
/// offset is `offset`.
pub open spec fn first_field_at_offset(fields: Seq<Field>, offset: u64, start: int) -> Option<int>
    decreases fields.len() - start,
{
    if start < 0 || start >= fields.len() {
        None
    } else if fields[start].offset == offset {
        Some(start)
    } else {
        first_field_at_offset(fields, offset, start + 1)
    }
}

/// The index of the first field of `fields`, from index `start` on, whose
/// name is `name`.
pub open spec fn first_field_named(fields: Seq<Field>, name: Seq<char>, start: int) -> Option<int>
    decreases fields.len() - start,
{
    if start < 0 || start >= fields.len() {
        None
    } else if fields[start].name@ == name {
        Some(start)
    } else {
        first_field_named(fields, name, start + 1)
    }
}

/// The name of the board field at byte offset `offset`, or the empty string.
pub open spec fn field_name_for_offset(offset: u64) -> Seq<char> {
    match first_field_at_offset(board_fields_spec(), offset, 0) {
        Some(i) => board_fields_spec()[i].name@,
        None => Seq::empty(),
    }
}

/// The byte offset of the board field named `name`, or 0.
pub open spec fn field_offset_for_name(name: Seq<char>) -> u64 {
    match first_field_named(board_fields_spec(), name, 0) {
        Some(i) => board_fields_spec()[i].offset,
        None => 0,
    }
}

/// The name of the board field at byte offset `offset` ("" for none).
pub fn get_field_name_from_offset(offset: u64) -> (name: &'static str)
    ensures
        name@ == field_name_for_offset(offset),
{
    let fields = board_fields();
    let mut i: usize = 0;
    while i < fields.len()
        invariant
            fields@ == board_fields_spec(),
            i <= fields@.len(),
            first_field_at_offset(fields@, offset, 0) == first_field_at_offset(fields@, offset, i as int),
        decreases fields@.len() - i,
    {
        if offset == fields[i].offset {
            return fields[i].name;
        }
        i = i + 1;
    }
    proof {
        reveal_strlit("");
    }
    ""
}

/// The byte offset of the board field named `name` (0 for none).
pub fn get_field_offset_from_name(name: &str) -> (offset: u64)
    ensures
        offset == field_offset_for_name(name@),
{
    let fields = board_fields();
    let mut i: usize = 0;
    while i < fields.len()
        invariant
            fields@ == board_fields_spec(),
            i <= fields@.len(),
            first_field_named(fields@, name@, 0) == first_field_named(fields@, name@, i as int),
        decreases fields@.len() - i,
    {
        if str_eq(name, fields[i].name) {
            return fields[i].offset;
        }
        i = i + 1;
    }
    0
}

/// The first field of the board fields at offset `fields[i].offset` is field `i`.
proof fn lemma_first_field_at_offset(i: int, start: int)
    requires
        0 <= start <= i < NUM_BOARD_FIELDS,
    ensures
        first_field_at_offset(board_fields_spec(), board_fields_spec()[i].offset, start) == Some(i),
    decreases i - start,
{
    lemma_board_fields_distinct();
    if start < i {
        assert(board_fields_spec()[start].offset != board_fields_spec()[i].offset);
        lemma_first_field_at_offset(i, start + 1);
    }
}

/// The first board field named `fields[i].name` is field `i`.
proof fn lemma_first_field_named(i: int, start: int)
    requires
        0 <= start <= i < NUM_BOARD_FIELDS,
    ensures
        first_field_named(board_fields_spec(), board_fields_spec()[i].name@, start) == Some(i),
    decreases i - start,
{
    lemma_board_fields_distinct();
    if start < i {
        assert(board_fields_spec()[start].name@ != board_fields_spec()[i].name@);
        lemma_first_field_named(i, start + 1);
    }
}

/// Looking up a board field's name by its offset and its offset by its name
/// are inverse to each other: for every field of a board record, the name
/// found for its offset is its name and the offset found for its name is its
/// offset, so each lookup undoes the other.
pub proof fn lemma_field_name_offset_inverse(i: int)
    requires
        0 <= i < NUM_BOARD_FIELDS,
    ensures
        field_name_for_offset(board_fields_spec()[i].offset) == board_fields_spec()[i].name@,
        field_offset_for_name(board_fields_spec()[i].name@) == board_fields_spec()[i].offset,
        field_offset_for_name(field_name_for_offset(board_fields_spec()[i].offset))
            == board_fields_spec()[i].offset,
        field_name_for_offset(field_offset_for_name(board_fields_spec()[i].name@))
            == board_fields_spec()[i].name@,
{
    lemma_board_fields_distinct();
    lemma_first_field_at_offset(i, 0);
    lemma_first_field_named(i, 0);
}

/// The value of the first field named `name` among `fields[start..]`, or -1.
pub open spec fn field_value_from(fields: Seq<FieldNameWithValue>, name: Seq<char>, start: int) -> i32
    decreases fields.len() - start,
{
    if start < 0 || start >= fields.len() {
        -1i32
    } else if fields[start].name@ == name {
        fields[start].value
    } else {
        field_value_from(fields, name, start + 1)
    }
}

/// The value of the board's first field named `name`, or -1 when it has none.
pub open spec fn board_field(board: BoardView, name: Seq<char>) -> i32 {
    field_value_from(board.fields, name, 0)
}

/// Whether the board has a field named `name` with value `value`.
pub open spec fn has_field_value(board: BoardView, name: Seq<char>, value: i32) -> bool {
    exists|j: int|
        0 <= j < board.fields.len() && (#[trigger] board.fields[j]).name@ == name
            && board.fields[j].value == value
}

/// The index of the first board of `boards[start..]` that has a field named
/// `name` with value `value`.
pub open spec fn first_board_with(boards: Seq<GameBoard>, name: Seq<char>, value: i32, start: int) -> Option<int>
    decreases boards.len() - start,
{
    if start < 0 || start >= boards.len() {
        None
    } else if has_field_value(boards[start]@, name, value) {
        Some(start)
    } else {
        first_board_with(boards, name, value, start + 1)
    }
}

/// A copy of the first board that has a field named `field_name` with value
/// `value`, or `None` when no board has one.
pub fn get_boards_where_field_has_value(
    game_boards: &Vec<GameBoard>,
    field_name: &str,
    value: i32,
) -> (r: Option<GameBoard>)
    ensures
        match first_board_with(game_boards@, field_name@, value, 0) {
            Some(i) => r is Some && r->0@ == game_boards@[i]@,
            None => r is None,
        },
{
    let mut i: usize = 0;
    while i < game_boards.len()
        invariant
            i <= game_boards@.len(),
            first_board_with(game_boards@, field_name@, value, 0)
                == first_board_with(game_boards@, field_name@, value, i as int),
        decreases game_boards@.len() - i,
    {
        let board = &game_boards[i];
        let fields = &board.fields;
        let mut j: usize = 0;
        while j < fields.len()
            invariant
                i < game_boards@.len(),
                *board == game_boards@[i as int],
                j <= fields@.len(),
                fields@ == game_boards@[i as int]@.fields,
                first_board_with(game_boards@, field_name@, value, 0)
                    == first_board_with(game_boards@, field_name@, value, i as int),
                forall|k: int|
                    0 <= k < j ==> !((#[trigger] fields@[k]).name@ == field_name@ && fields@[k].value
                        == value),
            decreases fields@.len() - j,
        {
            if str_eq(fields[j].name, field_name) {
                if fields[j].value == value {
                    assert(has_field_value(game_boards@[i as int]@, field_name@, value)) by {
                        assert(fields@[j as int].name@ == field_name@);
                    }
                    return Some(board.clone());
                }
            }
            j = j + 1;
        }
        i = i + 1;
    }
    None
}

/// The value of the board's first field named `field_name`, or -1.
pub fn get_field_value_in_board_by_name(board: &GameBoard, field_name: &str) -> (v: i32)
    ensures
        v == board_field(board@, field_name@),
{
    let fields = &board.fields;
    let mut i: usize = 0;
    while i < fields.len()
        invariant
            i <= fields@.len(),
            fields@ == board@.fields,
            field_value_from(fields@, field_name@, 0) == field_value_from(fields@, field_name@, i as int),
        decreases fields@.len() - i,
    {
        if str_eq(fields[i].name, field_name) {
            return fields[i].value;
        }
        i = i + 1;
    }
    -1
}


/// The square the piece moved from `board` starts on, and the square it is
/// headed to, as the board's fields record them.
pub open spec fn move_start(board: BoardView) -> Location {
    Location {
        universe: board_field(board, TIMELINE_NUMBER@),
        time: board_field(board, TIME_POSITION@),
        row: board_field(board, NEXT_MOVE_START_ROW@),
        col: board_field(board, NEXT_MOVE_START_COL@),
    }
}

/// See `move_start`.
pub open spec fn move_end(board: BoardView) -> Location {
    Location {
        universe: board_field(board, NEXT_MOVE_DEST_UNIVERSE@),
        time: board_field(board, NEXT_MOVE_DEST_TIME@),
        row: board_field(board, NEXT_MOVE_DEST_ROW@),
        col: board_field(board, NEXT_MOVE_DEST_COL@),
    }
}

/// Whether the board holds a square at `row`, `col`.
pub open spec fn has_square(board: BoardView, row: int, col: int) -> bool {
    0 <= row < board.pieces.len() && 0 <= col < board.pieces[row].len()
}

/// A move leaves its board's timeline or time.
pub open spec fn is_jump_between(start: Location, end: Location) -> bool {
    start.universe != end.universe || start.time != end.time
}

/// The index of the board created by a jump made on `board`.
pub open spec fn created_board_index(board: BoardView, boards: Seq<GameBoard>) -> Option<int> {
    first_board_with(boards, BOARD_NUMBER@, board_field(board, CREATED_BOARD_NUMBER@), 0)
}

/// The index of the board that came before the board created by a jump made on
/// `board` (the board the jump arrived on).
pub open spec fn arrival_board_index(board: BoardView, boards: Seq<GameBoard>) -> Option<int> {
    match created_board_index(board, boards) {
        Some(c) => first_board_with(
            boards,
            BOARD_NUMBER@,
            board_field(boards[c]@, PREV_BOARD_NUMBER@),
            0,
        ),
        None => None,
    }
}

/// The move recorded on `board` can be read: its start square is on the
/// board and, for a jump, the created board, the board before it and the
/// arrival square on that board exist. (Otherwise reading the move fails.)
pub open spec fn move_for_board_ok(board: BoardView, boards: Seq<GameBoard>) -> bool {
    let start = move_start(board);
    let end = move_end(board);
    &&& has_square(board, start.row as int, start.col as int)
    &&& is_jump_between(start, end) ==> match arrival_board_index(board, boards) {
        Some(p) => has_square(boards[p]@, end.row as int, end.col as int),
        None => false,
    }
}

/// The move recorded on `board`: where the piece starts and ends, which piece
/// it is, whether it jumps to another board, whether that jump branches off a
/// new timeline (the created board is on another timeline than the board
/// before it) and whether it lands on a piece.
pub open spec fn spec_move_for_board(board: BoardView, boards: Seq<GameBoard>) -> Move {
    let start = move_start(board);
    let end = move_end(board);
    let piece = notation_piece(board.pieces[start.row as int][start.col as int].piece_type);
    let is_jump = is_jump_between(start, end);
    let created = boards[created_board_index(board, boards)->0]@;
    let arrival = boards[arrival_board_index(board, boards)->0]@;
    Move {
        start_loc: start,
        end_loc: end,
        start_piece: piece,
        end_piece: piece,
        is_jump,
        is_branching: is_jump && board_field(created, TIMELINE_NUMBER@) != board_field(
            arrival,
            TIMELINE_NUMBER@,
        ),
        does_capture: is_jump && arrival.pieces[end.row as int][end.col as int].piece_type
            != PieceType::Nothing,
        moves_present: false,
    }
}

/// The move that was made on `board`, read from its fields; for a jump the
/// other boards tell whether it branches and whether it captures.
pub fn move_for_board(board: &GameBoard, game_boards: &Vec<GameBoard>) -> (m: Move)
    requires
        move_for_board_ok(board@, game_boards@),
    ensures
        m == spec_move_for_board(board@, game_boards@),
{
    let next_move_start_row = get_field_value_in_board_by_name(board, NEXT_MOVE_START_ROW);
    let next_move_start_col = get_field_value_in_board_by_name(board, NEXT_MOVE_START_COL);
    let board_timeline = get_field_value_in_board_by_name(board, TIMELINE_NUMBER);
    let board_time = get_field_value_in_board_by_name(board, TIME_POSITION);

    let next_move_dest_row = get_field_value_in_board_by_name(board, NEXT_MOVE_DEST_ROW);
    let next_move_dest_col = get_field_value_in_board_by_name(board, NEXT_MOVE_DEST_COL);
    let next_move_dest_universe = get_field_value_in_board_by_name(board, NEXT_MOVE_DEST_UNIVERSE);
    let next_move_dest_time = get_field_value_in_board_by_name(board, NEXT_MOVE_DEST_TIME);

    let created_board_number = get_field_value_in_board_by_name(board, CREATED_BOARD_NUMBER);

    let moving_piece = board.pieces[next_move_start_row as usize][next_move_start_col as usize];
    let notation_piece: Piece = Piece::from(moving_piece);

    let start_loc = Location {
        universe: board_timeline,
        time: board_time,
        row: next_move_start_row,
        col: next_move_start_col,
    };
    let end_loc = Location {
        universe: next_move_dest_universe,
        time: next_move_dest_time,
        row: next_move_dest_row,
        col: next_move_dest_col,
    };

    let is_jump: bool = start_loc.universe != end_loc.universe || start_loc.time != end_loc.time;
    let mut is_branching = false;
    let mut does_capture = false;
    if is_jump {
        match get_boards_where_field_has_value(game_boards, BOARD_NUMBER, created_board_number) {
            Some(created_board) => {
                let created_board_timeline = get_field_value_in_board_by_name(
                    &created_board,
                    TIMELINE_NUMBER,
                );
                let created_board_prev_board_num = get_field_value_in_board_by_name(
                    &created_board,
                    PREV_BOARD_NUMBER,
                );
                match get_boards_where_field_has_value(
                    game_boards,
                    BOARD_NUMBER,
                    created_board_prev_board_num,
                ) {
                    Some(created_board_prev_board) => {
                        let created_board_prev_timeline = get_field_value_in_board_by_name(
                            &created_board_prev_board,
                            TIMELINE_NUMBER,
                        );
                        // the board created by the jump continues from the board the
                        // jump arrived on; if that board is on another timeline, the
                        // jump opened a new one
                        if created_board_timeline != created_board_prev_timeline {
                            is_branching = true;
                        }
                        let potentially_captured_piece =
                            created_board_prev_board.pieces[end_loc.row as usize][end_loc.col as usize];
                        does_capture =
                            match potentially_captured_piece.piece_type {
                                PieceType::Nothing => false,
                                _ => true,
                            };
                    },
                    None => {},
                }
            },
            None => {},
        }
    }
    Move {
        start_loc,
        end_loc,
        start_piece: notation_piece,
        end_piece: notation_piece,
        is_jump,
        is_branching,
        does_capture,
        moves_present: false,
    }
}

/// What `move_for_board` reads for a jump: the move ends on the row and
/// column that the board's destination fields give, in that order; it
/// captures exactly when the arrival board (the board the created board
/// continues from) has a piece on that square, `pieces[row][col]`; and it
/// branches exactly when the created board's timeline differs from the
/// arrival board's. The created board is the one numbered as the board's
/// created-board field says, and the arrival board the one numbered as the
/// created board's previous-board field says. A move that stays on its
/// board's timeline and time neither captures nor branches.
pub proof fn lemma_move_capture_and_branch(board: BoardView, boards: Seq<GameBoard>)
    requires
        move_for_board_ok(board, boards),
    ensures
        ({
            let m = spec_move_for_board(board, boards);
            let row = board_field(board, NEXT_MOVE_DEST_ROW@);
            let col = board_field(board, NEXT_MOVE_DEST_COL@);
            let jump = board_field(board, TIMELINE_NUMBER@) != board_field(
                board,
                NEXT_MOVE_DEST_UNIVERSE@,
            ) || board_field(board, TIME_POSITION@) != board_field(board, NEXT_MOVE_DEST_TIME@);
            &&& m.is_jump == jump
            &&& m.end_loc.row == row
            &&& m.end_loc.col == col
            &&& m.start_loc.row == board_field(board, NEXT_MOVE_START_ROW@)
            &&& m.start_loc.col == board_field(board, NEXT_MOVE_START_COL@)
            &&& !jump ==> !m.does_capture && !m.is_branching
            &&& jump ==> {
                let c = created_board_index(board, boards)->0;
                let a = arrival_board_index(board, boards)->0;
                &&& 0 <= c < boards.len()
                &&& 0 <= a < boards.len()
                &&& has_field_value(
                    boards[c]@,
                    BOARD_NUMBER@,
                    board_field(board, CREATED_BOARD_NUMBER@),
                )
                &&& has_field_value(
                    boards[a]@,
                    BOARD_NUMBER@,
                    board_field(boards[c]@, PREV_BOARD_NUMBER@),
                )
                &&& m.does_capture == (boards[a]@.pieces[row as int][col as int].piece_type
                    != PieceType::Nothing)
                &&& m.is_branching == (board_field(boards[c]@, TIMELINE_NUMBER@) != board_field(
                    boards[a]@,
                    TIMELINE_NUMBER@,
                ))
            }
        }),
{
    let jump = board_field(board, TIMELINE_NUMBER@) != board_field(board, NEXT_MOVE_DEST_UNIVERSE@)
        || board_field(board, TIME_POSITION@) != board_field(board, NEXT_MOVE_DEST_TIME@);
    if jump {
        lemma_first_board_with(boards, BOARD_NUMBER@, board_field(board, CREATED_BOARD_NUMBER@), 0);
        let c = created_board_index(board, boards)->0;
        lemma_first_board_with(boards, BOARD_NUMBER@, board_field(boards[c]@, PREV_BOARD_NUMBER@), 0);
    }
}

/// The side whose move a board's stored `player_to_move` says it is
/// (1 is black; 0 and anything else count as white).
pub open spec fn mover_of(player_to_move: u32) -> Player {
    if player_to_move == 1 {
        Player::Black
    } else {
        Player::White
    }
}

/// The turns as (moves, player) pairs.
pub open spec fn turns_view(turns: Seq<Turn>) -> Seq<(Seq<Move>, Player)> {
    turns.map_values(|t: Turn| t@)
}

/// The board numbered `board_num` and the board before it, as indices into
/// `boards`, when both exist.
pub open spec fn board_and_previous(boards: Seq<GameBoard>, board_num: int) -> Option<(int, int)> {
    match first_board_with(boards, BOARD_NUMBER@, board_num as i32, 0) {
        Some(b) => match first_board_with(
            boards,
            BOARD_NUMBER@,
            board_field(boards[b]@, PREV_BOARD_NUMBER@),
            0,
        ) {
            Some(p) => Some((b, p)),
            None => None,
        },
        None => None,
    }
}

/// The number of the board to look at after board `board_num`, whose
/// previous board's move was `m`: a jump creates two boards, so it is skipped
/// over.
pub open spec fn next_board_num(board_num: int, m: Move) -> int {
    if m.is_jump {
        board_num + 2
    } else {
        board_num + 1
    }
}

/// Reading the turns from board `board_num` on never fails: every board
/// that is looked at can be printed (each one is logged as it is found) and
/// every move that is read can be read.
pub open spec fn turns_ok(boards: Seq<GameBoard>, board_num: int) -> bool
    decreases boards.len() + 2 - board_num,
{
    if board_num >= boards.len() {
        true
    } else {
        &&& match first_board_with(boards, BOARD_NUMBER@, board_num as i32, 0) {
            Some(b) => board_shape_ok(boards[b]@),
            None => true,
        }
        &&& match board_and_previous(boards, board_num) {
            Some((b, p)) => move_for_board_ok(boards[p]@, boards) && turns_ok(
                boards,
                next_board_num(board_num, spec_move_for_board(boards[p]@, boards)),
            ),
            None => true,
        }
    }
}

/// The turns read from board `board_num` on, when `player` is to complete a
/// turn whose moves so far are `moves`.
///
/// Boards are numbered in the order they were created, so going up through
/// the board numbers and taking the move made on each board's previous board
/// gives the moves in the order they were made. When a board's side to move
/// is the side whose turn is being collected, that turn is complete. Reading
/// stops without the pending turn when a board or its previous board is
/// missing.
pub open spec fn turns_from(
    boards: Seq<GameBoard>,
    board_num: int,
    player: Player,
    moves: Seq<Move>,
) -> Seq<(Seq<Move>, Player)>
    decreases boards.len() + 2 - board_num,
{
    if board_num >= boards.len() {
        seq![(moves, player)]
    } else {
        match board_and_previous(boards, board_num) {
            Some((b, p)) => {
                let m = spec_move_for_board(boards[p]@, boards);
                let next = next_board_num(board_num, m);
                if player == mover_of(boards[b]@.player_to_move) {
                    seq![(moves, player)] + turns_from(boards, next, other_player(player), seq![m])
                } else {
                    turns_from(boards, next, player, moves.push(m))
                }
            },
            None => seq![],
        }
    }
}

/// The turns of the game whose boards are `boards`, white first.
pub open spec fn generated_turns(boards: Seq<GameBoard>) -> Seq<(Seq<Move>, Player)> {
    turns_from(boards, 1, Player::White, seq![])
}

/// One step of reading turns from board `board_num`: the move read is the
/// one made on that board's previous board, and reading goes on from the
/// next board number, or, after a jump (which creates two boards, the one
/// the piece left and the one it arrived on), from the number after that,
/// so the second board a jump creates is never read for a move. When the
/// board's side to move is the side whose turn is being collected, that turn
/// is complete and the move starts the other side's turn.
pub proof fn lemma_turns_step(
    boards: Seq<GameBoard>,
    board_num: int,
    player: Player,
    moves: Seq<Move>,
)
    requires
        board_num < boards.len(),
        board_and_previous(boards, board_num) is Some,
    ensures
        board_and_previous(boards, board_num) matches Some((b, p)) && ({
            let m = spec_move_for_board(boards[p]@, boards);
            let next = if m.is_jump {
                board_num + 2
            } else {
                board_num + 1
            };
            turns_from(boards, board_num, player, moves) == if player == mover_of(
                boards[b]@.player_to_move,
            ) {
                seq![(moves, player)] + turns_from(boards, next, other_player(player), seq![m])
            } else {
                turns_from(boards, next, player, moves.push(m))
            }
        }),
{
}

/// The number of black turns in `turns`.
pub open spec fn black_turns(turns: Seq<(Seq<Move>, Player)>) -> nat
    decreases turns.len(),
{
    if turns.len() == 0 {
        0
    } else {
        (if turns[0].1 == Player::Black {
            1nat
        } else {
            0nat
        }) + black_turns(turns.drop_first())
    }
}

/// A white turn alone is written as its full turn number in decimal, ". ",
/// its moves and "/ "; a black turn alone as its moves and a line break.
pub proof fn lemma_turns_string_single(moves: Seq<Move>, turn_num: int)
    ensures
        turns_string_from(seq![(moves, Player::White)], turn_num) == int_decimal(turn_num) + seq![
            '.',
            ' ',
        ] + moves_notation(moves) + seq!['/', ' '],
        turns_string_from(seq![(moves, Player::Black)], turn_num) == moves_notation(moves) + seq![
            '\n',
        ],
{
    let w = seq![(moves, Player::White)];
    let b = seq![(moves, Player::Black)];
    let empty: Seq<(Seq<Move>, Player)> = seq![];
    assert(w.drop_first() =~= empty);
    assert(b.drop_first() =~= empty);
    assert(turns_string_from(empty, turn_num) =~= Seq::<char>::empty());
    assert(turns_string_from(empty, turn_num + 1) =~= Seq::<char>::empty());
    assert(w[0] == (moves, Player::White));
    assert(b[0] == (moves, Player::Black));
    assert(turns_string_from(w, turn_num) =~= int_decimal(turn_num) + seq!['.', ' '] + moves_notation(
        moves,
    ) + seq!['/', ' ']);
    assert(turns_string_from(b, turn_num) =~= moves_notation(moves) + seq!['\n']);
}

/// The record of turns played one after another is the record of the first
/// ones followed by that of the later ones, whose numbering goes on from the
/// first number plus the black turns among the first ones. With the single
/// turn law above: the number written before a white turn is one more than
/// the number of black turns before it, written in full.
pub proof fn lemma_turns_string_concat(
    a: Seq<(Seq<Move>, Player)>,
    b: Seq<(Seq<Move>, Player)>,
    turn_num: int,
)
    ensures
        turns_string_from(a + b, turn_num) == turns_string_from(a, turn_num) + turns_string_from(
            b,
            turn_num + black_turns(a),
        ),
    decreases a.len(),
{
    if a.len() == 0 {
        assert(a + b =~= b);
        assert(turns_string_from(a, turn_num) =~= seq![]);
        assert(turns_string_from(a + b, turn_num) =~= turns_string_from(a, turn_num)
            + turns_string_from(b, turn_num + black_turns(a)));
    } else {
        assert((a + b).drop_first() =~= a.drop_first() + b);
        assert((a + b)[0] == a[0]);
        if a[0].1 == Player::White {
            lemma_turns_string_concat(a.drop_first(), b, turn_num);
            assert(turns_string_from(a + b, turn_num) =~= turns_string_from(a, turn_num)
                + turns_string_from(b, turn_num + black_turns(a)));
        } else {
            lemma_turns_string_concat(a.drop_first(), b, turn_num + 1);
            assert(turns_string_from(a + b, turn_num) =~= turns_string_from(a, turn_num)
                + turns_string_from(b, turn_num + black_turns(a)));
        }
    }
}

/// The turns of the game, reconstructed from its boards. Every board looked
/// at is printed to the log as it is found, so `turns_ok` asks that each of
/// them can be printed, as well as that each move can be read.
pub fn generate_turns(game_boards: &Vec<GameBoard>) -> (turns: Vec<Turn>)
    requires
        game_boards@.len() < i32::MAX,
        turns_ok(game_boards@, 1),
    ensures
        turns_view(turns@) == generated_turns(game_boards@),
{
    let mut turns = Vec::<Turn>::new();
    let mut board_num = 1i32;
    let mut player = Player::White;
    let mut moves: Vec<Move> = Vec::new();
    let ghost total = generated_turns(game_boards@);
    assert(turns_view(turns@) =~= seq![]);
    while board_num < game_boards.len() as i32
        invariant
            game_boards@.len() < i32::MAX,
            1 <= board_num <= game_boards@.len() + 1,
            turns_ok(game_boards@, board_num as int),
            total == generated_turns(game_boards@),
            turns_view(turns@) + turns_from(game_boards@, board_num as int, player, moves@) == total,
        decreases game_boards@.len() + 2 - board_num,
    {
        let board = match get_boards_where_field_has_value(game_boards, BOARD_NUMBER, board_num) {
            Some(a) => a,
            None => {
                assert(turns_view(turns@) =~= total);
                return turns;
            },
        };
        let prev_board_num = get_field_value_in_board_by_name(&board, PREV_BOARD_NUMBER);
        let player_to_move = match board.player_to_move {
            0 => Player::White,
            1 => Player::Black,
            _ => Player::White,
        };
        let prev_board = match get_boards_where_field_has_value(game_boards, BOARD_NUMBER, prev_board_num) {
            Some(a) => a,
            None => {
                assert(turns_view(turns@) =~= total);
                return turns;
            },
        };
        let ghost pending = moves@;
        let ghost done = turns_view(turns@);
        if player == player_to_move {
            let turn = Turn { moves: moves, player };
            moves = Vec::new();
            turns.push(turn);
            proof {
                assert(turns_view(turns@) =~= done.push((pending, player)));
            }
            player = match player {
                Player::White => Player::Black,
                Player::Black => Player::White,
            };
        }
        let prev_move = move_for_board(&prev_board, game_boards);
        moves.push(prev_move);
        if prev_move.is_jump {
            board_num += 1;
        }
        board_num += 1;
    }
    let turn = Turn { moves, player };
    let ghost done = turns_view(turns@);
    turns.push(turn);
    assert(turns_view(turns@) =~= total);
    turns
}

/// The shape of `turns_from`: the players alternate starting with `player`,
/// every turn after the first has a move, and so does the first when `moves`
/// already has one.
proof fn lemma_turns_from_shape(
    boards: Seq<GameBoard>,
    board_num: int,
    player: Player,
    moves: Seq<Move>,
)
    ensures
        forall|i: int|
            0 <= i < turns_from(boards, board_num, player, moves).len() ==> (#[trigger] turns_from(
                boards,
                board_num,
                player,
                moves,
            )[i]).1 == (if i % 2 == 0 {
                player
            } else {
                other_player(player)
            }),
        forall|i: int|
            1 <= i < turns_from(boards, board_num, player, moves).len() ==> (#[trigger] turns_from(
                boards,
                board_num,
                player,
                moves,
            )[i]).0.len() >= 1,
        moves.len() >= 1 && turns_from(boards, board_num, player, moves).len() > 0 ==> turns_from(
            boards,
            board_num,
            player,
            moves,
        )[0].0.len() >= 1,
    decreases boards.len() + 2 - board_num,
{
    if board_num < boards.len() {
        match board_and_previous(boards, board_num) {
            Some((b, p)) => {
                let m = spec_move_for_board(boards[p]@, boards);
                let next = next_board_num(board_num, m);
                if player == mover_of(boards[b]@.player_to_move) {
                    lemma_turns_from_shape(boards, next, other_player(player), seq![m]);
                    let rest = turns_from(boards, next, other_player(player), seq![m]);
                    let all = turns_from(boards, board_num, player, moves);
                    assert(all == seq![(moves, player)] + rest);
                    assert forall|i: int| 1 <= i < all.len() implies all[i] == rest[i - 1] by {}
                } else {
                    lemma_turns_from_shape(boards, next, player, moves.push(m));
                }
            },
            None => {},
        }
    }
}

/// In the turns read from a game's boards, white and black take turns,
/// white first, and every turn after the first holds at least one move.
pub proof fn lemma_generated_turns_alternate(boards: Seq<GameBoard>)
    ensures
        forall|i: int|
            0 <= i < generated_turns(boards).len() ==> (#[trigger] generated_turns(boards)[i]).1 == (
            if i % 2 == 0 {
                Player::White
            } else {
                Player::Black
            }),
        forall|i: int|
            1 <= i < generated_turns(boards).len() ==> (#[trigger] generated_turns(boards)[i]).0.len()
                >= 1,
{
    lemma_turns_from_shape(boards, 1, Player::White, seq![]);
}

/// The game record of `turns`, numbering turn pairs from `turn_num`: a white
/// turn is written as its number, ". ", its moves and "/ "; a black turn as
/// its moves and a line break, after which the number goes up.
pub open spec fn turns_string_from(turns: Seq<(Seq<Move>, Player)>, turn_num: int) -> Seq<char>
    decreases turns.len(),
{
    if turns.len() == 0 {
        seq![]
    } else if turns[0].1 == Player::White {
        int_decimal(turn_num) + seq!['.', ' '] + moves_notation(turns[0].0) + seq!['/', ' ']
            + turns_string_from(turns.drop_first(), turn_num)
    } else {
        moves_notation(turns[0].0) + seq!['\n'] + turns_string_from(
            turns.drop_first(),
            turn_num + 1,
        )
    }
}

/// Every move of every turn can be written in notation.
pub open spec fn turns_notation_ok(turns: Seq<Turn>) -> bool {
    forall|i: int, j: int|
        0 <= i < turns.len() && 0 <= j < turns[i].moves@.len() ==> notation_ok(
            #[trigger] turns[i].moves@[j],
        )
}

/// The game record of `turns`, white and black turns paired up and numbered from 1.
pub fn get_turns_string(turns: &Vec<Turn>) -> (s: String)
    requires
        turns@.len() < i32::MAX,
        turns_notation_ok(turns@),
    ensures
        s@ == turns_string_from(turns_view(turns@), 1),
{
    let mut turn_num: i32 = 1;
    let mut to_print = String::new();
    let ghost all = turns_view(turns@);
    let mut i: usize = 0;
    assert(all.skip(0) =~= all);
    while i < turns.len()
        invariant
            turns@.len() < i32::MAX,
            turns_notation_ok(turns@),
            all == turns_view(turns@),
            i <= turns@.len(),
            1 <= turn_num <= i + 1,
            to_print@ + turns_string_from(all.skip(i as int), turn_num as int)
                == turns_string_from(all, 1),
        decreases turns@.len() - i,
    {
        let t = &turns[i];
        proof {
            assert forall|k: int| 0 <= k < t.moves@.len() implies notation_ok(
                #[trigger] t.moves@[k],
            ) by {
                assert(notation_ok(turns@[i as int].moves@[k]));
            }
        }
        let ghost before = to_print@;
        let ghost rest = all.skip(i as int);
        assert(rest[0] == t@);
        assert(rest.drop_first() =~= all.skip(i + 1));
        let notation = t.to_notation();
        if t.player == Player::White {
            push_i32_decimal(&mut to_print, turn_num);
            push_char(&mut to_print, '.');
            push_char(&mut to_print, ' ');
            to_print.append(notation.as_str());
            push_char(&mut to_print, '/');
            push_char(&mut to_print, ' ');
            assert(to_print@ =~= before + (int_decimal(turn_num as int) + seq!['.', ' ']
                + moves_notation(t.moves@) + seq!['/', ' ']));
        } else {
            to_print.append(notation.as_str());
            push_char(&mut to_print, '\n');
            turn_num += 1;
            assert(to_print@ =~= before + (moves_notation(t.moves@) + seq!['\n']));
        }
        i = i + 1;
    }
    assert(all.skip(i as int) =~= seq![]);
    assert(to_print@ =~= to_print@ + turns_string_from(all.skip(i as int), turn_num as int));
    to_print
}

/// A field of a board printed as "name = value".
pub open spec fn field_line(field: FieldNameWithValue) -> Seq<char> {
    field.name@ + seq![' ', '=', ' '] + int_decimal(field.value as int)
}

/// The first `n` squares of a row, each printed as "|", the owner's letter
/// and the piece's letter.
pub open spec fn row_cells(row: Seq<GamePiece>, n: int) -> Seq<char>
    decreases n,
{
    if n <= 0 {
        seq![]
    } else {
        row_cells(row, n - 1) + seq![
            '|',
            piece_owner_char(row[n - 1].owner),
            piece_type_char(row[n - 1].piece_type),
        ]
    }
}

/// The field lines of a printed board.
pub open spec fn field_lines(fields: Seq<FieldNameWithValue>) -> Seq<Seq<char>> {
    fields.map_values(|f: FieldNameWithValue| field_line(f))
}

/// The line that says whose move it is.
pub open spec fn player_line(player_to_move: u32) -> Seq<char> {
    seq!['p', 'l', 'a', 'y', 'e', 'r', '_', 't', 'o', '_', 'm', 'o', 'v', 'e', ' ', '=', ' ']
        + int_decimal(player_to_move as int)
}

/// The printed row `row` of a board, closed with a "|".
pub open spec fn row_line(board: BoardView, row: int) -> Seq<char> {
    row_cells(board.pieces[row], board.width as int) + seq!['|']
}

/// The `n` top rows of a printed board, top row first.
pub open spec fn top_row_lines(board: BoardView, n: nat) -> Seq<Seq<char>> {
    Seq::new(n, |k: int| row_line(board, board.height - 1 - k))
}

/// The text of a printed board: one line per field, a line with the side to
/// move, and then (when the board has columns) its rows from the top row
/// down.
pub open spec fn board_lines_spec(board: BoardView) -> Seq<Seq<char>> {
    field_lines(board.fields) + seq![player_line(board.player_to_move)] + if board.width == 0 {
        Seq::<Seq<char>>::empty()
    } else {
        top_row_lines(board, board.height as nat)
    }
}

/// The board holds a piece for each of its rows and columns (nothing is
/// asked of a board without columns, whose rows are not printed).
pub open spec fn board_shape_ok(board: BoardView) -> bool {
    board.width > 0 ==> {
        &&& board.height <= board.pieces.len()
        &&& forall|r: int|
            0 <= r < board.height ==> board.width <= (#[trigger] board.pieces[r]).len()
    }
}

/// Whether `board_lines` can print the board (see `board_shape_ok`).
pub fn board_printable(board: &GameBoard) -> (r: bool)
    ensures
        r == board_shape_ok(board@),
{
    if board.width == 0 {
        return true;
    }
    if (board.height as usize) > board.pieces.len() {
        return false;
    }
    let mut row: usize = 0;
    while row < board.height as usize
        invariant
            board.width > 0,
            row <= board.height,
            board.height <= board@.pieces.len(),
            forall|k: int| 0 <= k < row ==> board.width <= (#[trigger] board@.pieces[k]).len(),
        decreases board.height - row,
    {
        assert(board@.pieces[row as int] == board.pieces@[row as int]@);
        if (board.width as usize) > board.pieces[row].len() {
            return false;
        }
        row = row + 1;
    }
    true
}

/// The lines as character sequences.
pub open spec fn lines_view(lines: Seq<String>) -> Seq<Seq<char>> {
    lines.map_values(|l: String| l@)
}

/// The lines that describe a board when it is printed: its fields, the side
/// to move and its rows, top row first.
pub fn board_lines(board: &GameBoard) -> (lines: Vec<String>)
    requires
        board_shape_ok(board@),
    ensures
        lines_view(lines@) == board_lines_spec(board@),
{
    let pieces = &board.pieces;
    let mut lines: Vec<String> = Vec::new();
    let mut i: usize = 0;
    while i < board.fields.len()
        invariant
            i <= board.fields@.len(),
            lines_view(lines@) == field_lines(board@.fields.subrange(0, i as int)),
        decreases board.fields@.len() - i,
    {
        let named_field = board.fields[i];
        let mut line = String::from_str(named_field.name);
        push_char(&mut line, ' ');
        push_char(&mut line, '=');
        push_char(&mut line, ' ');
        push_i32_decimal(&mut line, named_field.value);
        assert(line@ =~= field_line(named_field));
        let ghost before = lines_view(lines@);
        lines.push(line);
        assert(lines_view(lines@) =~= before.push(field_line(named_field)));
        assert(field_lines(board@.fields.subrange(0, i + 1)) =~= field_lines(
            board@.fields.subrange(0, i as int),
        ).push(field_line(board@.fields[i as int])));
        i = i + 1;
    }
    let mut line = String::from_str("player_to_move = ");
    proof {
        reveal_strlit("player_to_move = ");
    }
    crate::text::push_u32_decimal(&mut line, board.player_to_move);
    assert(line@ =~= player_line(board.player_to_move));
    lines.push(line);
    let ghost head = lines_view(lines@);
    assert(board@.fields.subrange(0, i as int) =~= board@.fields);
    assert(head =~= field_lines(board@.fields) + seq![player_line(board.player_to_move)]);
    if board.width > 0 {
        let mut row = board.height;
        assert(lines_view(lines@) =~= head + top_row_lines(board@, 0));
        while row > 0
            invariant
                board_shape_ok(board@),
                board.width > 0,
                *pieces == board.pieces,
                row <= board.height,
                lines_view(lines@) == head + top_row_lines(board@, (board.height - row) as nat),
            decreases row,
        {
            row = row - 1;
            let piece_row = &pieces[row as usize];
            let mut to_print = String::new();
            let mut col: u32 = 0;
            assert(to_print@ =~= row_cells(board@.pieces[row as int], 0));
            while col < board.width
                invariant
                    board_shape_ok(board@),
                    row < board.height,
                    *piece_row == board.pieces@[row as int],
                    col <= board.width,
                    to_print@ == row_cells(board@.pieces[row as int], col as int),
                decreases board.width - col,
            {
                let piece = piece_row[col as usize];
                push_char(&mut to_print, '|');
                push_char(&mut to_print, char::from(piece.owner));
                push_char(&mut to_print, char::from(piece.piece_type));
                col = col + 1;
            }
            push_char(&mut to_print, '|');
            assert(to_print@ == row_line(board@, row as int));
            let ghost before = lines_view(lines@);
            lines.push(to_print);
            assert(lines_view(lines@) =~= before.push(row_line(board@, row as int)));
            assert(top_row_lines(board@, (board.height - row) as nat) =~= top_row_lines(
                board@,
                (board.height - row - 1) as nat,
            ).push(row_line(board@, row as int)));
        }
    }
    assert(lines_view(lines@) =~= board_lines_spec(board@));
    lines
}

/// `get_boards_where_field_has_value` finds the first board with the value:
/// the index it answers with is that of a board having a field named `name`
/// with value `value`, and no board before it has one; when it answers with
/// none, no board has one.
pub proof fn lemma_first_board_with(boards: Seq<GameBoard>, name: Seq<char>, value: i32, start: int)
    requires
        0 <= start,
    ensures
        first_board_with(boards, name, value, start) matches Some(i) ==> start <= i < boards.len()
            && has_field_value(boards[i]@, name, value) && forall|k: int|
            start <= k < i ==> !has_field_value(#[trigger] boards[k]@, name, value),
        first_board_with(boards, name, value, start) is None ==> forall|k: int|
            start <= k < boards.len() ==> !has_field_value(#[trigger] boards[k]@, name, value),
    decreases boards.len() - start,
{
    if start < boards.len() && !has_field_value(boards[start]@, name, value) {
        lemma_first_board_with(boards, name, value, start + 1);
    }
}

fn has_square_exec(board: &GameBoard, row: i32, col: i32) -> (r: bool)
    ensures
        r == has_square(board@, row as int, col as int),
{
    0 <= row && (row as usize) < board.pieces.len() && 0 <= col && (col as usize)
        < board.pieces[row as usize].len()
}

/// Whether the move recorded on `board` can be read (see `move_for_board_ok`).
pub fn move_for_board_readable(board: &GameBoard, game_boards: &Vec<GameBoard>) -> (r: bool)
    ensures
        r == move_for_board_ok(board@, game_boards@),
{
    let start_row = get_field_value_in_board_by_name(board, NEXT_MOVE_START_ROW);
    let start_col = get_field_value_in_board_by_name(board, NEXT_MOVE_START_COL);
    if !has_square_exec(board, start_row, start_col) {
        return false;
    }
    let start_universe = get_field_value_in_board_by_name(board, TIMELINE_NUMBER);
    let start_time = get_field_value_in_board_by_name(board, TIME_POSITION);
    let end_universe = get_field_value_in_board_by_name(board, NEXT_MOVE_DEST_UNIVERSE);
    let end_time = get_field_value_in_board_by_name(board, NEXT_MOVE_DEST_TIME);
    if start_universe == end_universe && start_time == end_time {
        return true;
    }
    let created_board_number = get_field_value_in_board_by_name(board, CREATED_BOARD_NUMBER);
    match get_boards_where_field_has_value(game_boards, BOARD_NUMBER, created_board_number) {
        Some(created_board) => {
            let prev_num = get_field_value_in_board_by_name(&created_board, PREV_BOARD_NUMBER);
            match get_boards_where_field_has_value(game_boards, BOARD_NUMBER, prev_num) {
                Some(arrival) => {
                    let end_row = get_field_value_in_board_by_name(board, NEXT_MOVE_DEST_ROW);
                    let end_col = get_field_value_in_board_by_name(board, NEXT_MOVE_DEST_COL);
                    has_square_exec(&arrival, end_row, end_col)
                },
                None => false,
            }
        },
        None => false,
    }
}

/// Whether the turns of the game can be read from its boards (see
/// `turns_ok`): every board looked at can be printed and every move read
/// can be read.
pub fn turns_readable(game_boards: &Vec<GameBoard>) -> (r: bool)
    requires
        game_boards@.len() < i32::MAX,
    ensures
        r == turns_ok(game_boards@, 1),
{
    let mut board_num = 1i32;
    while board_num < game_boards.len() as i32
        invariant
            game_boards@.len() < i32::MAX,
            1 <= board_num <= game_boards@.len() + 1,
            turns_ok(game_boards@, 1) == turns_ok(game_boards@, board_num as int),
        decreases game_boards@.len() + 2 - board_num,
    {
        let board = match get_boards_where_field_has_value(game_boards, BOARD_NUMBER, board_num) {
            Some(a) => a,
            None => return true,
        };
        if !board_printable(&board) {
            return false;
        }
        let prev_board_num = get_field_value_in_board_by_name(&board, PREV_BOARD_NUMBER);
        let prev_board = match get_boards_where_field_has_value(game_boards, BOARD_NUMBER, prev_board_num) {
            Some(a) => a,
            None => return true,
        };
        if !move_for_board_readable(&prev_board, game_boards) {
            return false;
        }
        let prev_move = move_for_board(&prev_board, game_boards);
        if prev_move.is_jump {
            board_num += 1;
        }
        board_num += 1;
    }
    true
}

} // verus!
