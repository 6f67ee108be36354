use chess5d_reader::board_record::{
    board_read_len, board_size_decodable, decode_board, decode_boards, piece_owner_from_code, piece_type_from_code,
    read_i32_le, read_u32_le, BOARD_RECORD_LENGTH,
};
use chess5d_reader::game::get_field_value_in_board_by_name;
use chess5d_reader::game_data::{
    board_fields, ArrayWithCap, GameData, GamePiece, PieceOwner, PieceType, PlayerToMove,
    BOARD_NUMBER, PREV_BOARD_NUMBER,
};
use chess5d_reader::notation::{col_to_string, Piece};
use chess5d_reader::saving::{
    array_byte_len, restored_game_data, saved_array, saved_game, NUM_GAME_ARRAYS,
};
use chess5d_reader::text::{push_i32_decimal, push_u32_decimal, str_eq};
use std::convert::TryFrom;

#[test]
fn piece_type_and_owner_letters() {
    assert_eq!(char::from(PieceType::Pawn), 'p');
    assert_eq!(char::from(PieceType::Knight), 'k');
    assert_eq!(char::from(PieceType::Queen), 'Q');
    assert_eq!(char::from(PieceType::RoyalQueen), 'Q');
    assert_eq!(char::from(PieceType::Brawn), 'B');
    assert_eq!(char::from(PieceType::FourPointQueen), 'q');
    assert_eq!(char::from(PieceType::CommongKing), 'K');
    assert_eq!(char::from(PieceType::Nothing), ' ');
    assert_eq!(char::from(PieceOwner::White), 'w');
    assert_eq!(char::from(PieceOwner::Black), 'b');
    assert_eq!(char::from(PieceOwner::NoOwner), ' ');
}

#[test]
fn notation_piece_letters() {
    let p = |t| Piece::from(GamePiece { piece_type: t, owner: PieceOwner::White });
    assert_eq!(p(PieceType::Knight), Piece::Knight);
    assert_eq!(p(PieceType::Nothing), Piece::Nothing);
    assert_eq!(p(PieceType::CommongKing), Piece::CommongKing);
    let s = |piece: Piece| -> &'static str { piece.into() };
    assert_eq!(s(Piece::Pawn), "P");
    assert_eq!(s(Piece::Knight), "N");
    assert_eq!(s(Piece::Brawn), "BR");
    assert_eq!(s(Piece::FourPointQueen), "S");
    assert_eq!(s(Piece::RoyalQueen), "RQ");
    assert_eq!(s(Piece::CommongKing), "CK");
    assert_eq!(s(Piece::Nothing), "");
}

#[test]
fn player_to_move_from_number() {
    assert_eq!(PlayerToMove::try_from(0u32), Ok(PlayerToMove::White));
    assert_eq!(PlayerToMove::try_from(1u32), Ok(PlayerToMove::Black));
    assert_eq!(PlayerToMove::try_from(2u32), Ok(PlayerToMove::SomethingElse));
    assert_eq!(PlayerToMove::try_from(3u32), Err(3));
}

#[test]
fn column_letters() {
    assert_eq!(col_to_string(0), "a");
    assert_eq!(col_to_string(7), "h");
    assert_eq!(col_to_string(8), "");
    assert_eq!(col_to_string(-1), "");
}

#[test]
fn decimal_text() {
    let decimal = |i: i32| {
        let mut s = String::from("x=");
        push_i32_decimal(&mut s, i);
        s
    };
    assert_eq!(decimal(0), "x=0");
    assert_eq!(decimal(7), "x=7");
    assert_eq!(decimal(-45), "x=-45");
    assert_eq!(decimal(1000), "x=1000");
    assert_eq!(decimal(i32::MAX), "x=2147483647");
    assert_eq!(decimal(i32::MIN), "x=-2147483648");
    let mut s = String::new();
    push_u32_decimal(&mut s, u32::MAX);
    assert_eq!(s, "4294967295");
    assert!(str_eq("abc", "abc"));
    assert!(!str_eq("abc", "abd"));
    assert!(!str_eq("ab", "abc"));
}

#[test]
fn piece_codes() {
    assert_eq!(piece_type_from_code(1), PieceType::Pawn);
    assert_eq!(piece_type_from_code(8), PieceType::Dragon);
    assert_eq!(piece_type_from_code(9), PieceType::Nothing);
    assert_eq!(piece_type_from_code(10), PieceType::Brawn);
    assert_eq!(piece_type_from_code(13), PieceType::CommongKing);
    assert_eq!(piece_type_from_code(0), PieceType::Nothing);
    assert_eq!(piece_type_from_code(200), PieceType::Nothing);
    assert_eq!(piece_owner_from_code(1), PieceOwner::White);
    assert_eq!(piece_owner_from_code(2), PieceOwner::Black);
    assert_eq!(piece_owner_from_code(0), PieceOwner::NoOwner);
    assert_eq!(piece_owner_from_code(3), PieceOwner::NoOwner);
}

#[test]
fn little_endian_numbers() {
    let bytes = vec![0x78, 0x56, 0x34, 0x12, 0xff, 0xff, 0xff, 0xff];
    assert_eq!(read_u32_le(&bytes, 0), 0x1234_5678);
    assert_eq!(read_i32_le(&bytes, 0), 0x1234_5678);
    assert_eq!(read_u32_le(&bytes, 4), u32::MAX);
    assert_eq!(read_i32_le(&bytes, 4), -1);
    let min = vec![0, 0, 0, 0x80];
    assert_eq!(read_i32_le(&min, 0), i32::MIN);
}

fn record(width: u32, height: u32) -> Vec<u8> {
    let mut rec = vec![0u8; board_read_len(width, height) as usize];
    // board number 7, previous board 6 (-1 would be 0xffffffff)
    rec[0] = 7;
    rec[200..204].copy_from_slice(&(-2i32).to_le_bytes());
    rec[12] = 1; // black to move
    // white king at column 4, row 0; black queen at column 3, row 7
    rec[16 * 4 + 16] = 6;
    rec[16 * 4 + 16 + 1] = 1;
    rec[16 * 3 + 2 * 7 + 16] = 5;
    rec[16 * 3 + 2 * 7 + 16 + 1] = 2;
    rec
}

#[test]
fn decode_board_reads_pieces_and_fields() {
    assert_eq!(board_read_len(8, 8), BOARD_RECORD_LENGTH);
    assert_eq!(board_read_len(16, 8), 16 * 16 + 2 * 8);
    let rec = record(8, 8);
    let b = decode_board(&rec, 8, 8);
    assert_eq!(b.player_to_move, 1);
    assert_eq!((b.width, b.height), (8, 8));
    assert_eq!(b.pieces.len(), 8);
    assert!(b.pieces.iter().all(|row| row.len() == 8));
    assert_eq!(b.pieces[0][4], GamePiece { piece_type: PieceType::King, owner: PieceOwner::White });
    assert_eq!(b.pieces[7][3], GamePiece { piece_type: PieceType::Queen, owner: PieceOwner::Black });
    assert_eq!(b.pieces[3][3], GamePiece { piece_type: PieceType::Nothing, owner: PieceOwner::NoOwner });
    assert_eq!(b.fields.len(), 24);
    let names: Vec<&str> = board_fields().iter().map(|f| f.name).collect();
    let decoded: Vec<&str> = b.fields.iter().map(|f| f.name).collect();
    assert_eq!(decoded, names);
    // what the record stores is what the board's fields give back
    assert_eq!(get_field_value_in_board_by_name(&b, BOARD_NUMBER), 7);
    assert_eq!(get_field_value_in_board_by_name(&b, PREV_BOARD_NUMBER), -2);
}

#[test]
fn decode_board_fills_rows_above_height_with_nothing() {
    let rec = record(8, 4);
    let b = decode_board(&rec, 8, 4);
    assert_eq!(b.pieces.len(), 8);
    assert_eq!(b.pieces[0][4].piece_type, PieceType::King);
    // row 7 lies above the board's height: not read
    assert_eq!(b.pieces[7][3].piece_type, PieceType::Nothing);
}

#[test]
fn board_sizes_that_can_be_decoded() {
    assert!(board_size_decodable(8, 8));
    assert!(board_size_decodable(8, 4));
    assert!(!board_size_decodable(4, 8));
    // without columns or rows no square is read
    assert!(board_size_decodable(0, 100));
    assert!(board_size_decodable(100, 0));
    // the last square's offset, 16 * width + 2 * height - 2, must fit in a u32
    let w = (u32::MAX - 16) / 16;
    assert!(board_size_decodable(w, 1));
    assert!(board_size_decodable(268_435_455, 1));
    assert!(!board_size_decodable(268_435_456, 1));
    assert_eq!(board_read_len(0, 200), BOARD_RECORD_LENGTH);
    assert_eq!(board_read_len(200, 0), BOARD_RECORD_LENGTH);
}

#[test]
fn decode_board_without_columns_has_no_rows() {
    let rec = vec![0u8; BOARD_RECORD_LENGTH as usize];
    let b = decode_board(&rec, 0, 5);
    assert_eq!((b.width, b.height), (0, 5));
    assert!(b.pieces.is_empty());
    assert_eq!(b.fields.len(), 24);
}

#[test]
fn decode_boards_keeps_order() {
    let mut second = record(8, 8);
    second[0] = 8;
    let boards = decode_boards(&vec![record(8, 8), second], 8, 8);
    assert_eq!(boards.len(), 2);
    assert_eq!(get_field_value_in_board_by_name(&boards[0], BOARD_NUMBER), 7);
    assert_eq!(get_field_value_in_board_by_name(&boards[1], BOARD_NUMBER), 8);
}

fn array(len: u32, cap: u32, ptr: u64) -> ArrayWithCap {
    ArrayWithCap { array_len: len, array_cap: cap, array_ptr: ptr }
}

#[test]
fn saved_array_copies_bytes() {
    let a = array(3, 4, 0x1000);
    assert_eq!(array_byte_len(a, 0xe4), 3 * 0xe4);
    let s = saved_array(a, vec![1, 2, 3]);
    assert_eq!(s.array_len, 3);
    assert_eq!(s.array_cap, 4);
    assert_eq!(s.bytes, vec![1, 2, 3]);
    assert_eq!(&s.bbytes[..], &[1, 2, 3]);
    let c = s.clone();
    assert_eq!(&c.bbytes[..], &[1, 2, 3]);
}

#[test]
fn restoring_a_saved_game_gives_it_back() {
    let mut g = GameData::default();
    g.num_boards = 5;
    g.board_width = 8;
    g.board_height = 8;
    g.unknown6 = 84;
    g.board_array = array(5, 8, 0x5000);
    g.array_40 = array(2, 2, 0x6000);
    g.array_d0 = array(1, 4, 0x7000);
    let arrays = vec![
        g.board_array, g.array_40, g.array_50, g.array_60, g.array_70, g.array_80, g.array_90,
        g.array_a0, g.array_b0, g.array_c0, g.array_d0,
    ];
    assert_eq!(arrays.len(), NUM_GAME_ARRAYS);
    let saved_arrays: Vec<_> = arrays.iter().map(|a| saved_array(*a, vec![a.array_len as u8])).collect();
    let saved = saved_game(g, saved_arrays);
    assert_eq!(saved.num_boards, 5);
    assert_eq!(saved.unknown6, 84);
    assert_eq!(saved.board_array.array_len, 5);
    assert_eq!(saved.array_d0.bytes, vec![1]);
    let ptrs: Vec<u64> = arrays.iter().map(|a| a.array_ptr).collect();
    let back = restored_game_data(&saved, &ptrs);
    assert_eq!(format!("{:?}", back), format!("{:?}", g));
    let moved: Vec<u64> = (0..11u64).map(|k| 0x9000 + k).collect();
    let elsewhere = restored_game_data(&saved, &moved);
    assert_eq!(elsewhere.board_array.array_ptr, 0x9000);
    assert_eq!(elsewhere.array_d0.array_ptr, 0x900a);
    assert_eq!(elsewhere.array_d0.array_cap, 4);
}
