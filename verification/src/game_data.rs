//! The game's pieces and boards, the fields of a board record in the game's
//! memory, and the game's top-level data record.

use vstd::prelude::*;
use vstd::string::*;
use crate::notation::Piece;

verus! {

/// The kind of a piece standing on a square (or `Nothing`).
#[derive(Debug, Clone, Copy, PartialEq, Eq, Structural)]
pub enum PieceType {
    Nothing,
    Pawn,
    Knight,
    Bishop,
    Rook,
    Queen,
    King,
    Unicorn,
    Dragon,
    Brawn,
    FourPointQueen,
    RoyalQueen,
    CommongKing,
}

/// The one-letter symbol of a piece kind on a printed board.
pub open spec fn piece_type_char(piece_type: PieceType) -> char {
    match piece_type {
        PieceType::Pawn => 'p',
        PieceType::Knight => 'k',
        PieceType::Bishop => 'b',
        PieceType::Rook => 'r',
        PieceType::Queen => 'Q',
        PieceType::King => 'K',
        PieceType::Unicorn => 'u',
        PieceType::Dragon => 'd',
        PieceType::Brawn => 'B',
        PieceType::FourPointQueen => 'q',
        PieceType::RoyalQueen => 'Q',
        PieceType::CommongKing => 'K',
        PieceType::Nothing => ' ',
    }
}

impl From<PieceType> for char {
    fn from(piece_type: PieceType) -> (c: char) {
        match piece_type {
            PieceType::Pawn => 'p',
            PieceType::Knight => 'k',
            PieceType::Bishop => 'b',
            PieceType::Rook => 'r',
            PieceType::Queen => 'Q',
            PieceType::King => 'K',
            PieceType::Unicorn => 'u',
            PieceType::Dragon => 'd',
            PieceType::Brawn => 'B',
            PieceType::FourPointQueen => 'q',
            PieceType::RoyalQueen => 'Q',
            PieceType::CommongKing => 'K',
            PieceType::Nothing => ' ',
        }
    }
}

impl vstd::std_specs::convert::FromSpecImpl<PieceType> for char {
    open spec fn obeys_from_spec() -> bool {
        true
    }

    open spec fn from_spec(piece_type: PieceType) -> char {
        piece_type_char(piece_type)
    }
}

/// The side a piece belongs to (or `NoOwner` for an empty square).
#[derive(Debug, Clone, Copy, PartialEq, Eq, Structural)]
pub enum PieceOwner {
    NoOwner,
    White,
    Black,
}

/// The one-letter symbol of a piece's owner on a printed board.
pub open spec fn piece_owner_char(owner: PieceOwner) -> char {
    match owner {
        PieceOwner::White => 'w',
        PieceOwner::Black => 'b',
        PieceOwner::NoOwner => ' ',
    }
}

impl From<PieceOwner> for char {
    fn from(piece_owner: PieceOwner) -> (c: char) {
        match piece_owner {
            PieceOwner::White => 'w',
            PieceOwner::Black => 'b',
            PieceOwner::NoOwner => ' ',
        }
    }
}

impl vstd::std_specs::convert::FromSpecImpl<PieceOwner> for char {
    open spec fn obeys_from_spec() -> bool {
        true
    }

    open spec fn from_spec(owner: PieceOwner) -> char {
        piece_owner_char(owner)
    }
}

/// The side to move, as the game stores it in a `u32`
/// (0 for white, 1 for black, 2 for something else).
#[derive(Debug, PartialEq, Eq, Structural)]
pub enum PlayerToMove {
    White,
    Black,
    SomethingElse,
}

/// The side to move that the stored number `n` stands for, if any.
pub open spec fn player_to_move_of(n: u32) -> Option<PlayerToMove> {
    if n == 0 {
        Some(PlayerToMove::White)
    } else if n == 1 {
        Some(PlayerToMove::Black)
    } else if n == 2 {
        Some(PlayerToMove::SomethingElse)
    } else {
        None
    }
}

impl TryFrom<u32> for PlayerToMove {
    /// The number that stands for no variant.
    type Error = u32;

    fn try_from(number: u32) -> (r: Result<PlayerToMove, u32>) {
        if number == 0 {
            Ok(PlayerToMove::White)
        } else if number == 1 {
            Ok(PlayerToMove::Black)
        } else if number == 2 {
            Ok(PlayerToMove::SomethingElse)
        } else {
            Err(number)
        }
    }
}

impl vstd::std_specs::convert::TryFromSpecImpl<u32> for PlayerToMove {
    open spec fn obeys_try_from_spec() -> bool {
        true
    }

    open spec fn try_from_spec(number: u32) -> Result<PlayerToMove, u32> {
        match player_to_move_of(number) {
            Some(p) => Ok(p),
            None => Err(number),
        }
    }
}

/// A piece on a square: its kind and its owner.
#[derive(Debug, Clone, Copy, PartialEq, Eq, Structural)]
pub struct GamePiece {
    pub piece_type: PieceType,
    pub owner: PieceOwner,
}

/// The notation piece of a piece kind.
pub open spec fn notation_piece(piece_type: PieceType) -> Piece {
    match piece_type {
        PieceType::Nothing => Piece::Nothing,
        PieceType::Pawn => Piece::Pawn,
        PieceType::Knight => Piece::Knight,
        PieceType::Bishop => Piece::Bishop,
        PieceType::Rook => Piece::Rook,
        PieceType::Queen => Piece::Queen,
        PieceType::King => Piece::King,
        PieceType::Unicorn => Piece::Unicorn,
        PieceType::Dragon => Piece::Dragon,
        PieceType::Brawn => Piece::Brawn,
        PieceType::FourPointQueen => Piece::FourPointQueen,
        PieceType::RoyalQueen => Piece::RoyalQueen,
        PieceType::CommongKing => Piece::CommongKing,
    }
}

impl From<GamePiece> for Piece {
    fn from(p: GamePiece) -> (r: Piece) {
        match p.piece_type {
            PieceType::Nothing => Piece::Nothing,
            PieceType::Pawn => Piece::Pawn,
            PieceType::Knight => Piece::Knight,
            PieceType::Bishop => Piece::Bishop,
            PieceType::Rook => Piece::Rook,
            PieceType::Queen => Piece::Queen,
            PieceType::King => Piece::King,
            PieceType::Unicorn => Piece::Unicorn,
            PieceType::Dragon => Piece::Dragon,
            PieceType::Brawn => Piece::Brawn,
            PieceType::FourPointQueen => Piece::FourPointQueen,
            PieceType::RoyalQueen => Piece::RoyalQueen,
            PieceType::CommongKing => Piece::CommongKing,
        }
    }
}

impl vstd::std_specs::convert::FromSpecImpl<GamePiece> for Piece {
    open spec fn obeys_from_spec() -> bool {
        true
    }

    open spec fn from_spec(p: GamePiece) -> Piece {
        notation_piece(p.piece_type)
    }
}


/// A named field of a board record, at a byte offset from the record's start.
#[derive(Debug)]
pub struct Field {
    pub name: &'static str,
    pub offset: u64,
}

/// A named field of a board together with the value read for it.
#[derive(Debug, Clone, Copy)]
pub struct FieldNameWithValue {
    pub name: &'static str,
    pub value: i32,
}

pub const BOARD_NUMBER: &'static str = "board number";
pub const TIMELINE_NUMBER: &'static str = "timeline number";
pub const TIME_POSITION: &'static str = "time position";

pub const NEXT_MOVE_START_ROW: &'static str = "next move start row";
pub const NEXT_MOVE_START_COL: &'static str = "next move start col";

pub const NEXT_MOVE_DEST_ROW: &'static str = "next move dest row";
pub const NEXT_MOVE_DEST_COL: &'static str = "next move dest col";
pub const NEXT_MOVE_DEST_UNIVERSE: &'static str = "next move dest universe";
pub const NEXT_MOVE_DEST_TIME: &'static str = "next move dest time";

pub const NEXT_BOARD_NUMBER: &'static str = "board number of next board";
pub const CREATED_BOARD_NUMBER: &'static str =
    "board number of any new boards created by this boards move";
pub const PREV_BOARD_NUMBER: &'static str = "board number of previous board";
pub const PLAYER_TO_MOVE: &'static str = "player to move";

/// The number of fields of a board record.
pub const NUM_BOARD_FIELDS: usize = 24;

/// The fields of a board record, in the order they are read, with their
/// byte offsets.
pub open spec fn board_fields_spec() -> Seq<Field> {
    seq![
        Field { name: BOARD_NUMBER, offset: 0 },
        Field { name: TIMELINE_NUMBER, offset: 4 },
        Field { name: TIME_POSITION, offset: 8 },
        Field { name: "board id", offset: 144 },
        Field { name: "is active", offset: 148 },
        Field { name: "timeline number 2", offset: 152 },
        Field { name: "time position 2", offset: 156 },
        Field { name: PLAYER_TO_MOVE, offset: 160 },
        Field { name: NEXT_MOVE_START_ROW, offset: 164 },
        Field { name: NEXT_MOVE_START_COL, offset: 168 },
        Field { name: NEXT_MOVE_DEST_UNIVERSE, offset: 172 },
        Field { name: NEXT_MOVE_DEST_TIME, offset: 176 },
        Field { name: "next move piece owner", offset: 180 },
        Field { name: NEXT_MOVE_DEST_ROW, offset: 184 },
        Field { name: NEXT_MOVE_DEST_COL, offset: 188 },
        Field { name: "board id of previous move start", offset: 192 },
        Field { name: NEXT_BOARD_NUMBER, offset: 196 },
        Field { name: PREV_BOARD_NUMBER, offset: 200 },
        Field { name: CREATED_BOARD_NUMBER, offset: 204 },
        Field {
            name: "board number of board that a piece left to create this board",
            offset: 208,
        },
        Field { name: "last move start row", offset: 212 },
        Field { name: "last move start col", offset: 216 },
        Field { name: "last move end row", offset: 220 },
        Field { name: "last move end col", offset: 224 },
    ]
}

/// The fields of a board record (`BOARD_FIELDS`), in order.
pub fn board_fields() -> (fields: Vec<Field>)
    ensures
        fields@ == board_fields_spec(),
{
    let fields = vec![
        Field { name: BOARD_NUMBER, offset: 0 },
        Field { name: TIMELINE_NUMBER, offset: 4 },
        Field { name: TIME_POSITION, offset: 8 },
        Field { name: "board id", offset: 144 },
        Field { name: "is active", offset: 148 },
        Field { name: "timeline number 2", offset: 152 },
        Field { name: "time position 2", offset: 156 },
        Field { name: PLAYER_TO_MOVE, offset: 160 },
        Field { name: NEXT_MOVE_START_ROW, offset: 164 },
        Field { name: NEXT_MOVE_START_COL, offset: 168 },
        Field { name: NEXT_MOVE_DEST_UNIVERSE, offset: 172 },
        Field { name: NEXT_MOVE_DEST_TIME, offset: 176 },
        Field { name: "next move piece owner", offset: 180 },
        Field { name: NEXT_MOVE_DEST_ROW, offset: 184 },
        Field { name: NEXT_MOVE_DEST_COL, offset: 188 },
        Field { name: "board id of previous move start", offset: 192 },
        Field { name: NEXT_BOARD_NUMBER, offset: 196 },
        Field { name: PREV_BOARD_NUMBER, offset: 200 },
        Field { name: CREATED_BOARD_NUMBER, offset: 204 },
        Field {
            name: "board number of board that a piece left to create this board",
            offset: 208,
        },
        Field { name: "last move start row", offset: 212 },
        Field { name: "last move start col", offset: 216 },
        Field { name: "last move end row", offset: 220 },
        Field { name: "last move end col", offset: 224 },
    ];
    assert(fields@ =~= board_fields_spec());
    fields
}

/// No two fields of a board record share a name or an offset.
pub proof fn lemma_board_fields_distinct()
    ensures
        board_fields_spec().len() == NUM_BOARD_FIELDS,
        forall|i: int, j: int|
            0 <= i < NUM_BOARD_FIELDS && 0 <= j < NUM_BOARD_FIELDS && i != j
                ==> #[trigger] board_fields_spec()[i].offset != #[trigger] board_fields_spec()[j].offset,
        forall|i: int, j: int|
            0 <= i < NUM_BOARD_FIELDS && 0 <= j < NUM_BOARD_FIELDS && i != j
                ==> (#[trigger] board_fields_spec()[i]).name@ != (#[trigger] board_fields_spec()[j]).name@,
{
    let f = board_fields_spec();
    reveal_strlit("board number");
    reveal_strlit("timeline number");
    reveal_strlit("time position");
    reveal_strlit("board id");
    reveal_strlit("is active");
    reveal_strlit("timeline number 2");
    reveal_strlit("time position 2");
    reveal_strlit("player to move");
    reveal_strlit("next move start row");
    reveal_strlit("next move start col");
    reveal_strlit("next move dest universe");
    reveal_strlit("next move dest time");
    reveal_strlit("next move piece owner");
    reveal_strlit("next move dest row");
    reveal_strlit("next move dest col");
    reveal_strlit("board id of previous move start");
    reveal_strlit("board number of next board");
    reveal_strlit("board number of previous board");
    reveal_strlit("board number of any new boards created by this boards move");
    reveal_strlit("board number of board that a piece left to create this board");
    reveal_strlit("last move start row");
    reveal_strlit("last move start col");
    reveal_strlit("last move end row");
    reveal_strlit("last move end col");
    // names of equal length differ at these positions
    assert(f[1].name@[4] != f[6].name@[4]);
    assert(f[8].name@[16] != f[9].name@[16]);
    assert(f[8].name@[10] != f[11].name@[10]);
    assert(f[9].name@[10] != f[11].name@[10]);
    assert(f[20].name@[16] != f[21].name@[16]);
    assert(f[13].name@[15] != f[14].name@[15]);
    assert(f[22].name@[14] != f[23].name@[14]);
    assert(f[8].name@[0] != f[20].name@[0]);
    assert(f[5].name@[0] != f[22].name@[0]);
    assert forall|i: int, j: int|
        0 <= i < NUM_BOARD_FIELDS && 0 <= j < NUM_BOARD_FIELDS && i != j
            implies (#[trigger] f[i]).name@ != (#[trigger] f[j]).name@ by {
        assert(f[i].name@.len() != f[j].name@.len() || f[i].name@[0] != f[j].name@[0]
            || f[i].name@[4] != f[j].name@[4] || f[i].name@[10] != f[j].name@[10]
            || f[i].name@[14] != f[j].name@[14] || f[i].name@[15] != f[j].name@[15]
            || f[i].name@[16] != f[j].name@[16]);
    }
}


/// One board of the game: whose move it is, its size, the piece on each
/// square (`pieces[row][col]`) and the values of its record's fields.
#[derive(Debug)]
pub struct GameBoard {
    pub player_to_move: u32,
    pub width: u32,
    pub height: u32,
    pub pieces: Vec<Vec<GamePiece>>,
    pub fields: Vec<FieldNameWithValue>,
}

/// The contents of a `GameBoard` as mathematical values.
pub struct BoardView {
    pub player_to_move: u32,
    pub width: u32,
    pub height: u32,
    pub pieces: Seq<Seq<GamePiece>>,
    pub fields: Seq<FieldNameWithValue>,
}

impl View for GameBoard {
    type V = BoardView;

    open spec fn view(&self) -> BoardView {
        BoardView {
            player_to_move: self.player_to_move,
            width: self.width,
            height: self.height,
            pieces: self.pieces@.map_values(|row: Vec<GamePiece>| row@),
            fields: self.fields@,
        }
    }
}

impl Clone for GameBoard {
    /// A copy of the board, square by square and field by field.
    fn clone(&self) -> (r: GameBoard)
        ensures
            r@ == self@,
    {
        let mut new_pieces: Vec<Vec<GamePiece>> = Vec::new();
        let mut i: usize = 0;
        while i < self.pieces.len()
            invariant
                i <= self.pieces@.len(),
                new_pieces@.len() == i,
                forall|k: int| 0 <= k < i ==> (#[trigger] new_pieces@[k])@ == self.pieces@[k]@,
            decreases self.pieces@.len() - i,
        {
            let piece_row = &self.pieces[i];
            let mut row: Vec<GamePiece> = Vec::new();
            let mut j: usize = 0;
            while j < piece_row.len()
                invariant
                    j <= piece_row@.len(),
                    row@ == piece_row@.subrange(0, j as int),
                decreases piece_row@.len() - j,
            {
                row.push(piece_row[j]);
                j = j + 1;
                assert(row@ =~= piece_row@.subrange(0, j as int));
            }
            assert(row@ =~= piece_row@);
            new_pieces.push(row);
            i = i + 1;
        }
        let mut new_fields: Vec<FieldNameWithValue> = Vec::new();
        let mut k: usize = 0;
        while k < self.fields.len()
            invariant
                k <= self.fields@.len(),
                new_fields@ == self.fields@.subrange(0, k as int),
            decreases self.fields@.len() - k,
        {
            let field_name = self.fields[k].name;
            let field_value = self.fields[k].value;
            new_fields.push(FieldNameWithValue { name: field_name, value: field_value });
            k = k + 1;
            assert(new_fields@ =~= self.fields@.subrange(0, k as int));
        }
        assert(new_fields@ =~= self.fields@);
        let r = GameBoard {
            player_to_move: self.player_to_move,
            width: self.width,
            height: self.height,
            pieces: new_pieces,
            fields: new_fields,
        };
        assert(r@.pieces =~= self@.pieces);
        r
    }
}

/// A position in the multiverse, as the game stores it.
#[derive(Debug, Clone, Copy, Default)]
pub struct WorldPosition {
    pub universe: u32,
    pub time: u32,
    pub player_to_move: u32,
    pub row: u32,
    pub col: u32,
}

/// The game's top-level record (at `GAME_DATA_OFFSET` in the game's module).
/// Its arrays point into the game's memory.
#[derive(Debug, Clone, Copy, Default)]
pub struct GameData {
    pub unknown1: u32,
    pub unknown2: u32,
    pub non_neg_universes: u32,
    pub neg_universes: u32,
    pub num_boards: u32,
    pub unknown3: u32,
    pub unknown4: u32,
    pub unknown5: u32,
    /// Seems to tell which starting position the game was set up from.
    pub unknown6: u32,
    pub unknown7: u32,
    pub unknown8: u32,
    pub unknown9: u32,
    pub board_array: ArrayWithCap,
    pub array_40: ArrayWithCap,
    pub array_50: ArrayWithCap,
    pub array_60: ArrayWithCap,
    pub array_70: ArrayWithCap,
    pub array_80: ArrayWithCap,
    pub array_90: ArrayWithCap,
    pub array_a0: ArrayWithCap,
    pub array_b0: ArrayWithCap,
    pub array_c0: ArrayWithCap,
    pub array_d0: ArrayWithCap,
    pub board_height: u32,
    pub board_width: u32,
    pub unknown10: u32,
    pub unknown11: u32,
}

/// The offset of the game's top-level record from the start of its module.
pub const GAME_DATA_OFFSET: usize = 0x14ba80;

/// The size in bytes of one element of each of the game's arrays.
pub const BOARD_ELEMENT_LENGTH: u32 = 0xe4;
pub const _40_ELEMENT_LENGTH: u32 = 0x4;
pub const _50_ELEMENT_LENGTH: u32 = 0x1;
pub const _60_ELEMENT_LENGTH: u32 = 0x1;
pub const _70_ELEMENT_LENGTH: u32 = 0x8;
pub const _80_ELEMENT_LENGTH: u32 = 0x8;
pub const _90_ELEMENT_LENGTH: u32 = 0x8;
pub const _A0_ELEMENT_LENGTH: u32 = 0x8;
pub const _B0_ELEMENT_LENGTH: u32 = 0x8;
pub const _C0_ELEMENT_LENGTH: u32 = 0x8;
pub const _D0_ELEMENT_LENGTH: u32 = 0x8;

/// A growable array of the game: its length, its capacity and the address of
/// its elements in the game's memory.
#[derive(Debug, Clone, Copy, Default)]
pub struct ArrayWithCap {
    pub array_len: u32,
    pub array_cap: u32,
    pub array_ptr: u64,
}

/// A copy of the game's top-level record whose arrays hold copies of their
/// elements instead of pointers.
#[derive(Debug, Clone)]
pub struct SavedGameData {
    pub unknown1: u32,
    pub unknown2: u32,
    pub non_neg_universes: u32,
    pub neg_universes: u32,
    pub num_boards: u32,
    pub unknown3: u32,
    pub unknown4: u32,
    pub unknown5: u32,
    pub unknown6: u32,
    pub unknown7: u32,
    pub unknown8: u32,
    pub unknown9: u32,
    pub board_array: SavedArrayWithCap,
    pub array_40: SavedArrayWithCap,
    pub array_50: SavedArrayWithCap,
    pub array_60: SavedArrayWithCap,
    pub array_70: SavedArrayWithCap,
    pub array_80: SavedArrayWithCap,
    pub array_90: SavedArrayWithCap,
    pub array_a0: SavedArrayWithCap,
    pub array_b0: SavedArrayWithCap,
    pub array_c0: SavedArrayWithCap,
    pub array_d0: SavedArrayWithCap,
    pub board_height: u32,
    pub board_width: u32,
    pub unknown10: u32,
    pub unknown11: u32,
}

#[verifier::external_type_specification]
#[verifier::external_body]
pub struct ExBytes(bytes::Bytes);

/// The bytes a `bytes::Bytes` holds, in order.
pub uninterp spec fn bytes_contents(b: bytes::Bytes) -> Seq<u8>;

/// `<bytes::Bytes as Clone>::clone`, which the derived `Clone` of
/// `SavedArrayWithCap` calls: the clone holds the same bytes (it shares the
/// original's buffer).
pub assume_specification[ <bytes::Bytes as Clone>::clone ](b: &bytes::Bytes) -> (r: bytes::Bytes)
    ensures
        bytes_contents(r) == bytes_contents(*b),
;

/// A copy of one of the game's arrays: its length and capacity and the bytes
/// of its elements (twice: as a vector and as a `Bytes` buffer).
#[derive(Debug, Clone)]
pub struct SavedArrayWithCap {
    pub array_len: u32,
    pub array_cap: u32,
    pub bytes: Vec<u8>,
    pub bbytes: bytes::Bytes,
}

} // verus!
