//! Decoding the game's in-memory board records.
//!
//! A board record starts with the fields of `board_fields` (little-endian
//! `i32`s at their offsets); the side to move is a little-endian `u32` at
//! byte 12, and the square at column `col` and row `row` is two bytes at
//! `16 * col + 2 * row + 16`: the piece kind, then its owner.

use vstd::prelude::*;
use crate::game::board_field;
use crate::game_data::{
    board_fields, board_fields_spec, lemma_board_fields_distinct, BoardView, FieldNameWithValue, GameBoard, GamePiece,
    PieceOwner, PieceType, NUM_BOARD_FIELDS,
};

verus! {

/// The length of a board record in the game's memory.
pub const BOARD_RECORD_LENGTH: u64 = 0xe4;

/// The byte offset of the side to move in a board record.
pub const PLAYER_TO_MOVE_OFFSET: u64 = 12;

/// The piece kind that the game's byte code `code` stands for (codes the
/// game does not use, and 9, read as `Nothing`).
pub open spec fn piece_type_of_code(code: u8) -> PieceType {
    if code == 1 {
        PieceType::Pawn
    } else if code == 2 {
        PieceType::Knight
    } else if code == 3 {
        PieceType::Bishop
    } else if code == 4 {
        PieceType::Rook
    } else if code == 5 {
        PieceType::Queen
    } else if code == 6 {
        PieceType::King
    } else if code == 7 {
        PieceType::Unicorn
    } else if code == 8 {
        PieceType::Dragon
    } else if code == 10 {
        PieceType::Brawn
    } else if code == 11 {
        PieceType::FourPointQueen
    } else if code == 12 {
        PieceType::RoyalQueen
    } else if code == 13 {
        PieceType::CommongKing
    } else {
        PieceType::Nothing
    }
}

/// The owner that the game's byte code `code` stands for.
pub open spec fn piece_owner_of_code(code: u8) -> PieceOwner {
    if code == 1 {
        PieceOwner::White
    } else if code == 2 {
        PieceOwner::Black
    } else {
        PieceOwner::NoOwner
    }
}

/// The piece kind stored as `code`.
pub fn piece_type_from_code(code: u8) -> (t: PieceType)
    ensures
        t == piece_type_of_code(code),
{
    match code {
        1 => PieceType::Pawn,
        2 => PieceType::Knight,
        3 => PieceType::Bishop,
        4 => PieceType::Rook,
        5 => PieceType::Queen,
        6 => PieceType::King,
        7 => PieceType::Unicorn,
        8 => PieceType::Dragon,
        10 => PieceType::Brawn,
        11 => PieceType::FourPointQueen,
        12 => PieceType::RoyalQueen,
        13 => PieceType::CommongKing,
        _ => PieceType::Nothing,
    }
}

/// The owner stored as `code`.
pub fn piece_owner_from_code(code: u8) -> (o: PieceOwner)
    ensures
        o == piece_owner_of_code(code),
{
    match code {
        1 => PieceOwner::White,
        2 => PieceOwner::Black,
        _ => PieceOwner::NoOwner,
    }
}

/// The little-endian `u32` in bytes `at..at + 4`.
pub open spec fn le_u32(bytes: Seq<u8>, at: int) -> int {
    bytes[at] + 256 * bytes[at + 1] + 65536 * bytes[at + 2] + 16777216 * bytes[at + 3]
}

/// The little-endian two's complement `i32` in bytes `at..at + 4`.
pub open spec fn le_i32(bytes: Seq<u8>, at: int) -> int {
    if le_u32(bytes, at) >= 0x8000_0000 {
        le_u32(bytes, at) - 0x1_0000_0000
    } else {
        le_u32(bytes, at)
    }
}

/// Reads the little-endian `u32` at byte `at`.
pub fn read_u32_le(bytes: &Vec<u8>, at: usize) -> (v: u32)
    requires
        at + 4 <= bytes@.len(),
    ensures
        v == le_u32(bytes@, at as int),
{
    let len = bytes.len();
    assert(at + 3 < len);
    let b0 = bytes[at] as u32;
    let b1 = bytes[at + 1] as u32;
    let b2 = bytes[at + 2] as u32;
    let b3 = bytes[at + 3] as u32;
    b0 + 256 * b1 + 65536 * b2 + 16777216 * b3
}

/// Reads the little-endian two's complement `i32` at byte `at`.
pub fn read_i32_le(bytes: &Vec<u8>, at: usize) -> (v: i32)
    requires
        at + 4 <= bytes@.len(),
    ensures
        v == le_i32(bytes@, at as int),
{
    let u = read_u32_le(bytes, at);
    if u >= 0x8000_0000 {
        ((u - 0x8000_0000) as i32) + i32::MIN
    } else {
        u as i32
    }
}

/// The byte offset of the square at `col`, `row` in a board record.
pub open spec fn square_offset(col: int, row: int) -> int {
    16 * col + 2 * row + 16
}

/// Whether decoding reads any square: only a board with both rows and
/// columns has squares to read.
pub open spec fn has_squares(width: u32, height: u32) -> bool {
    width > 0 && height > 0
}

/// The number of bytes of a board's record that decoding reads: its fields
/// and, when it has squares, all of them (the last square's owner byte is at
/// `16 * width + 2 * height - 1`).
pub open spec fn record_len_needed(width: u32, height: u32) -> int {
    if has_squares(width, height) && 16 * width + 2 * height > BOARD_RECORD_LENGTH {
        16 * width + 2 * height
    } else {
        BOARD_RECORD_LENGTH as int
    }
}

/// The number of bytes to read for the record of a board of the given size.
pub fn board_read_len(width: u32, height: u32) -> (n: u64)
    ensures
        n == record_len_needed(width, height),
{
    let squares = 16 * (width as u64) + 2 * (height as u64);
    if width > 0 && height > 0 && squares > BOARD_RECORD_LENGTH {
        squares
    } else {
        BOARD_RECORD_LENGTH
    }
}

/// The piece decoded for the square at `row`, `col` of a board of height
/// `height` (squares in rows at or above `height` are empty).
pub open spec fn decoded_square(record: Seq<u8>, row: int, col: int, height: u32) -> GamePiece {
    if row < height {
        GamePiece {
            piece_type: piece_type_of_code(record[square_offset(col, row)]),
            owner: piece_owner_of_code(record[square_offset(col, row) + 1]),
        }
    } else {
        GamePiece { piece_type: PieceType::Nothing, owner: PieceOwner::NoOwner }
    }
}

/// The board a record decodes to. Its piece grid has `width` rows of `width`
/// squares, of which the first `height` rows are read from the record.
pub open spec fn decoded_board(record: Seq<u8>, width: u32, height: u32) -> BoardView {
    BoardView {
        player_to_move: le_u32(record, PLAYER_TO_MOVE_OFFSET as int) as u32,
        width,
        height,
        pieces: Seq::new(
            width as nat,
            |row: int| Seq::new(width as nat, |col: int| decoded_square(record, row, col, height)),
        ),
        fields: Seq::new(
            NUM_BOARD_FIELDS as nat,
            |i: int|
                FieldNameWithValue {
                    name: board_fields_spec()[i].name,
                    value: le_i32(record, board_fields_spec()[i].offset as int) as i32,
                },
        ),
    }
}

/// The size of a board whose squares can be decoded: when it has squares,
/// no more rows than columns (the piece grid holds `width` rows) and square
/// offsets that fit in a `u32` (the largest is `16 * width + 2 * height - 2`).
pub open spec fn size_decodable(width: u32, height: u32) -> bool {
    has_squares(width, height) ==> {
        &&& height <= width
        &&& 16 * width + 2 * height - 2 <= u32::MAX
    }
}

/// A record of `record_len` bytes can be decoded for a board of the given
/// size: the size is decodable and the record holds every byte read.
pub open spec fn decode_ok(record_len: int, width: u32, height: u32) -> bool {
    &&& size_decodable(width, height)
    &&& record_len >= record_len_needed(width, height)
}

/// Whether boards of the given size can be decoded (see `size_decodable`).
pub fn board_size_decodable(width: u32, height: u32) -> (r: bool)
    ensures
        r == size_decodable(width, height),
{
    if width == 0 || height == 0 {
        return true;
    }
    height <= width && 16 * (width as u64) + 2 * (height as u64) - 2 <= u32::MAX as u64
}

/// Decodes one board record.
pub fn decode_board(record: &Vec<u8>, board_width: u32, board_height: u32) -> (board: GameBoard)
    requires
        decode_ok(record@.len() as int, board_width, board_height),
    ensures
        board@ == decoded_board(record@, board_width, board_height),
{
    let player_to_move = read_u32_le(record, PLAYER_TO_MOVE_OFFSET as usize);
    let ghost target = decoded_board(record@, board_width, board_height);
    let mut pieces: Vec<Vec<GamePiece>> = Vec::new();
    let mut row: u32 = 0;
    while row < board_width
        invariant
            decode_ok(record@.len() as int, board_width, board_height),
            target == decoded_board(record@, board_width, board_height),
            row <= board_width,
            pieces@.len() == row,
            forall|r: int| 0 <= r < row ==> (#[trigger] pieces@[r])@ == target.pieces[r],
        decreases board_width - row,
    {
        let mut squares: Vec<GamePiece> = Vec::new();
        let mut col: u32 = 0;
        while col < board_width
            invariant
                decode_ok(record@.len() as int, board_width, board_height),
                target == decoded_board(record@, board_width, board_height),
                row < board_width,
                col <= board_width,
                squares@ == target.pieces[row as int].subrange(0, col as int),
            decreases board_width - col,
        {
            if row < board_height {
                assert(has_squares(board_width, board_height));
                assert(16 * col + 2 * row + 16 <= 16 * board_width + 2 * board_height - 2);
                let offset: u32 = 16 * col + 2 * row + 16;
                let at = offset as usize;
                let piece_type = piece_type_from_code(record[at]);
                let owner = piece_owner_from_code(record[at + 1]);
                squares.push(GamePiece { piece_type, owner });
            } else {
                squares.push(GamePiece { piece_type: PieceType::Nothing, owner: PieceOwner::NoOwner });
            }
            col = col + 1;
            assert(squares@ =~= target.pieces[row as int].subrange(0, col as int));
        }
        assert(squares@ =~= target.pieces[row as int]);
        pieces.push(squares);
        row = row + 1;
    }
    let fields = board_fields();
    let mut new_board_fields: Vec<FieldNameWithValue> = Vec::new();
    let mut i: usize = 0;
    while i < fields.len()
        invariant
            decode_ok(record@.len() as int, board_width, board_height),
            target == decoded_board(record@, board_width, board_height),
            fields@ == board_fields_spec(),
            i <= fields@.len(),
            new_board_fields@ == target.fields.subrange(0, i as int),
        decreases fields@.len() - i,
    {
        let value = read_i32_le(record, fields[i].offset as usize);
        new_board_fields.push(FieldNameWithValue { name: fields[i].name, value });
        i = i + 1;
        assert(new_board_fields@ =~= target.fields.subrange(0, i as int));
    }
    assert(new_board_fields@ =~= target.fields);
    let board = GameBoard {
        player_to_move,
        width: board_width,
        height: board_height,
        pieces,
        fields: new_board_fields,
    };
    assert(board@.pieces =~= target.pieces);
    board
}

/// Decodes the records of all boards of a game, in order.
pub fn decode_boards(records: &Vec<Vec<u8>>, board_width: u32, board_height: u32) -> (boards: Vec<GameBoard>)
    requires
        forall|i: int|
            0 <= i < records@.len() ==> decode_ok(
                (#[trigger] records@[i])@.len() as int,
                board_width,
                board_height,
            ),
    ensures
        boards@.len() == records@.len(),
        forall|i: int|
            0 <= i < records@.len() ==> (#[trigger] boards@[i])@ == decoded_board(
                records@[i]@,
                board_width,
                board_height,
            ),
{
    let mut real_boards = Vec::<GameBoard>::new();
    let mut i: usize = 0;
    while i < records.len()
        invariant
            forall|k: int|
                0 <= k < records@.len() ==> decode_ok(
                    (#[trigger] records@[k])@.len() as int,
                    board_width,
                    board_height,
                ),
            i <= records@.len(),
            real_boards@.len() == i,
            forall|k: int|
                0 <= k < i ==> (#[trigger] real_boards@[k])@ == decoded_board(
                    records@[k]@,
                    board_width,
                    board_height,
                ),
        decreases records@.len() - i,
    {
        let new_board = decode_board(&records[i], board_width, board_height);
        real_boards.push(new_board);
        i = i + 1;
    }
    real_boards
}

/// Decoding reads each square of the board's first `height` rows from its
/// two bytes at `16 * col + 2 * row + 16`: the first gives the piece kind
/// (1 pawn, 2 knight, 3 bishop, 4 rook, 5 queen, 6 king, 7 unicorn,
/// 8 dragon, 10 brawn, 11 four-point queen, 12 royal queen, 13 common king,
/// any other code nothing) and the second the owner (1 white, 2 black, any
/// other code none). Squares in rows at or above `height` are empty.
pub proof fn lemma_decoded_square_codes(record: Seq<u8>, width: u32, height: u32, row: int, col: int)
    requires
        0 <= row < width,
        0 <= col < width,
    ensures
        ({
            let sq = decoded_board(record, width, height).pieces[row][col];
            let code = record[16 * col + 2 * row + 16];
            let owner = record[16 * col + 2 * row + 17];
            if row < height {
                &&& (code == 1 ==> sq.piece_type == PieceType::Pawn)
                &&& (code == 2 ==> sq.piece_type == PieceType::Knight)
                &&& (code == 3 ==> sq.piece_type == PieceType::Bishop)
                &&& (code == 4 ==> sq.piece_type == PieceType::Rook)
                &&& (code == 5 ==> sq.piece_type == PieceType::Queen)
                &&& (code == 6 ==> sq.piece_type == PieceType::King)
                &&& (code == 7 ==> sq.piece_type == PieceType::Unicorn)
                &&& (code == 8 ==> sq.piece_type == PieceType::Dragon)
                &&& (code == 10 ==> sq.piece_type == PieceType::Brawn)
                &&& (code == 11 ==> sq.piece_type == PieceType::FourPointQueen)
                &&& (code == 12 ==> sq.piece_type == PieceType::RoyalQueen)
                &&& (code == 13 ==> sq.piece_type == PieceType::CommongKing)
                &&& (code == 0 || code == 9 || code > 13 ==> sq.piece_type == PieceType::Nothing)
                &&& (owner == 1 ==> sq.owner == PieceOwner::White)
                &&& (owner == 2 ==> sq.owner == PieceOwner::Black)
                &&& (owner != 1 && owner != 2 ==> sq.owner == PieceOwner::NoOwner)
            } else {
                sq == GamePiece { piece_type: PieceType::Nothing, owner: PieceOwner::NoOwner }
            }
        }),
{
}

/// The value of a field read back from a decoded board is the number stored
/// at that field's offset in the record.
pub proof fn lemma_decoded_field_value(record: Seq<u8>, width: u32, height: u32, i: int)
    requires
        0 <= i < NUM_BOARD_FIELDS,
    ensures
        board_field(decoded_board(record, width, height), board_fields_spec()[i].name@) == le_i32(
            record,
            board_fields_spec()[i].offset as int,
        ) as i32,
{
    lemma_board_fields_distinct();
    lemma_decoded_field_value_from(record, width, height, i, 0);
}

proof fn lemma_decoded_field_value_from(record: Seq<u8>, width: u32, height: u32, i: int, start: int)
    requires
        0 <= start <= i < NUM_BOARD_FIELDS,
    ensures
        crate::game::field_value_from(
            decoded_board(record, width, height).fields,
            board_fields_spec()[i].name@,
            start,
        ) == le_i32(record, board_fields_spec()[i].offset as int) as i32,
    decreases i - start,
{
    lemma_board_fields_distinct();
    let fields = decoded_board(record, width, height).fields;
    assert(fields[start].name == board_fields_spec()[start].name);
    if start < i {
        assert(board_fields_spec()[start].name@ != board_fields_spec()[i].name@);
        lemma_decoded_field_value_from(record, width, height, i, start + 1);
    }
}

} // verus!
