//! Saving the game's top-level record together with copies of its arrays,
//! and building a record again from a saved one.

use vstd::prelude::*;
use crate::game_data::{bytes_contents, ArrayWithCap, GameData, SavedArrayWithCap, SavedGameData};

verus! {

/// `bytes::Bytes::from(Vec<u8>)`: the buffer holds exactly the vector's bytes,
/// in order (the crate takes over the vector's allocation).
#[verifier::external_body]
fn bytes_from_vec(v: Vec<u8>) -> (b: bytes::Bytes)
    ensures
        bytes_contents(b) == v@,
{
    bytes::Bytes::from(v)
}

/// The number of bytes an array's elements take up, `array_len` elements of
/// `bytes_per_element` bytes.
pub fn array_byte_len(array: ArrayWithCap, bytes_per_element: u32) -> (n: u64)
    requires
        array.array_len * bytes_per_element <= u32::MAX,
    ensures
        n == array.array_len * bytes_per_element,
{
    (array.array_len * bytes_per_element) as u64
}

/// A copy of an array of the game, given the bytes of its elements.
pub fn saved_array(array: ArrayWithCap, bytes: Vec<u8>) -> (saved: SavedArrayWithCap)
    ensures
        saved.array_len == array.array_len,
        saved.array_cap == array.array_cap,
        saved.bytes@ == bytes@,
        bytes_contents(saved.bbytes) == bytes@,
{
    let array_len = array.array_len;
    let array_cap = array.array_cap;
    let mut copy: Vec<u8> = Vec::new();
    let mut i: usize = 0;
    while i < bytes.len()
        invariant
            i <= bytes@.len(),
            copy@ == bytes@.subrange(0, i as int),
        decreases bytes@.len() - i,
    {
        copy.push(bytes[i]);
        i = i + 1;
        assert(copy@ =~= bytes@.subrange(0, i as int));
    }
    assert(copy@ =~= bytes@);
    let bbytes = bytes_from_vec(copy);
    SavedArrayWithCap { array_len, array_cap, bytes, bbytes }
}

/// The game's eleven arrays, in the order they appear in its record.
pub open spec fn game_arrays(g: GameData) -> Seq<ArrayWithCap> {
    seq![
        g.board_array,
        g.array_40,
        g.array_50,
        g.array_60,
        g.array_70,
        g.array_80,
        g.array_90,
        g.array_a0,
        g.array_b0,
        g.array_c0,
        g.array_d0,
    ]
}

/// The number of arrays in the game's record.
pub const NUM_GAME_ARRAYS: usize = 11;

/// The saved record: the record's numbers and the given copies of its
/// arrays, in order.
pub open spec fn saved_game_spec(g: GameData, arrays: Seq<SavedArrayWithCap>) -> SavedGameData {
    SavedGameData {
        unknown1: g.unknown1,
        unknown2: g.unknown2,
        non_neg_universes: g.non_neg_universes,
        neg_universes: g.neg_universes,
        num_boards: g.num_boards,
        unknown3: g.unknown3,
        unknown4: g.unknown4,
        unknown5: g.unknown5,
        unknown6: g.unknown6,
        unknown7: g.unknown7,
        unknown8: g.unknown8,
        unknown9: g.unknown9,
        board_array: arrays[0],
        array_40: arrays[1],
        array_50: arrays[2],
        array_60: arrays[3],
        array_70: arrays[4],
        array_80: arrays[5],
        array_90: arrays[6],
        array_a0: arrays[7],
        array_b0: arrays[8],
        array_c0: arrays[9],
        array_d0: arrays[10],
        board_height: g.board_height,
        board_width: g.board_width,
        unknown10: g.unknown10,
        unknown11: g.unknown11,
    }
}

/// An array of the record built from a saved array placed at `ptr`.
pub open spec fn restored_array(saved: SavedArrayWithCap, ptr: u64) -> ArrayWithCap {
    ArrayWithCap { array_len: saved.array_len, array_cap: saved.array_cap, array_ptr: ptr }
}

/// The record built from a saved one whose arrays were placed at `ptrs`,
/// in order.
pub open spec fn restored_game_spec(saved: SavedGameData, ptrs: Seq<u64>) -> GameData {
    GameData {
        unknown1: saved.unknown1,
        unknown2: saved.unknown2,
        non_neg_universes: saved.non_neg_universes,
        neg_universes: saved.neg_universes,
        num_boards: saved.num_boards,
        unknown3: saved.unknown3,
        unknown4: saved.unknown4,
        unknown5: saved.unknown5,
        unknown6: saved.unknown6,
        unknown7: saved.unknown7,
        unknown8: saved.unknown8,
        unknown9: saved.unknown9,
        board_array: restored_array(saved.board_array, ptrs[0]),
        array_40: restored_array(saved.array_40, ptrs[1]),
        array_50: restored_array(saved.array_50, ptrs[2]),
        array_60: restored_array(saved.array_60, ptrs[3]),
        array_70: restored_array(saved.array_70, ptrs[4]),
        array_80: restored_array(saved.array_80, ptrs[5]),
        array_90: restored_array(saved.array_90, ptrs[6]),
        array_a0: restored_array(saved.array_a0, ptrs[7]),
        array_b0: restored_array(saved.array_b0, ptrs[8]),
        array_c0: restored_array(saved.array_c0, ptrs[9]),
        array_d0: restored_array(saved.array_d0, ptrs[10]),
        board_height: saved.board_height,
        board_width: saved.board_width,
        unknown10: saved.unknown10,
        unknown11: saved.unknown11,
    }
}

/// A saved copy of the game's record, given copies of its eleven arrays in
/// record order.
pub fn saved_game(game_data: GameData, arrays: Vec<SavedArrayWithCap>) -> (saved: SavedGameData)
    requires
        arrays@.len() == NUM_GAME_ARRAYS,
    ensures
        saved == saved_game_spec(game_data, arrays@),
{
    let ghost all = arrays@;
    let mut arrays = arrays;
    let array_d0 = arrays.pop().unwrap();
    let array_c0 = arrays.pop().unwrap();
    let array_b0 = arrays.pop().unwrap();
    let array_a0 = arrays.pop().unwrap();
    let array_90 = arrays.pop().unwrap();
    let array_80 = arrays.pop().unwrap();
    let array_70 = arrays.pop().unwrap();
    let array_60 = arrays.pop().unwrap();
    let array_50 = arrays.pop().unwrap();
    let array_40 = arrays.pop().unwrap();
    let board_array = arrays.pop().unwrap();
    SavedGameData {
        unknown1: game_data.unknown1,
        unknown2: game_data.unknown2,
        non_neg_universes: game_data.non_neg_universes,
        neg_universes: game_data.neg_universes,
        num_boards: game_data.num_boards,
        unknown3: game_data.unknown3,
        unknown4: game_data.unknown4,
        unknown5: game_data.unknown5,
        unknown6: game_data.unknown6,
        unknown7: game_data.unknown7,
        unknown8: game_data.unknown8,
        unknown9: game_data.unknown9,
        board_array,
        array_40,
        array_50,
        array_60,
        array_70,
        array_80,
        array_90,
        array_a0,
        array_b0,
        array_c0,
        array_d0,
        board_height: game_data.board_height,
        board_width: game_data.board_width,
        unknown10: game_data.unknown10,
        unknown11: game_data.unknown11,
    }
}

fn restore_array(saved: &SavedArrayWithCap, ptr: u64) -> (a: ArrayWithCap)
    ensures
        a == restored_array(*saved, ptr),
{
    ArrayWithCap { array_len: saved.array_len, array_cap: saved.array_cap, array_ptr: ptr }
}

/// The game's record built from a saved one, once the saved arrays' bytes
/// have been placed in the game's memory at `array_ptrs` (in record order).
pub fn restored_game_data(saved_game_data: &SavedGameData, array_ptrs: &Vec<u64>) -> (g: GameData)
    requires
        array_ptrs@.len() == NUM_GAME_ARRAYS,
    ensures
        g == restored_game_spec(*saved_game_data, array_ptrs@),
{
    let saved = saved_game_data;
    GameData {
        unknown1: saved.unknown1,
        unknown2: saved.unknown2,
        non_neg_universes: saved.non_neg_universes,
        neg_universes: saved.neg_universes,
        num_boards: saved.num_boards,
        unknown3: saved.unknown3,
        unknown4: saved.unknown4,
        unknown5: saved.unknown5,
        unknown6: saved.unknown6,
        unknown7: saved.unknown7,
        unknown8: saved.unknown8,
        unknown9: saved.unknown9,
        board_array: restore_array(&saved.board_array, array_ptrs[0]),
        array_40: restore_array(&saved.array_40, array_ptrs[1]),
        array_50: restore_array(&saved.array_50, array_ptrs[2]),
        array_60: restore_array(&saved.array_60, array_ptrs[3]),
        array_70: restore_array(&saved.array_70, array_ptrs[4]),
        array_80: restore_array(&saved.array_80, array_ptrs[5]),
        array_90: restore_array(&saved.array_90, array_ptrs[6]),
        array_a0: restore_array(&saved.array_a0, array_ptrs[7]),
        array_b0: restore_array(&saved.array_b0, array_ptrs[8]),
        array_c0: restore_array(&saved.array_c0, array_ptrs[9]),
        array_d0: restore_array(&saved.array_d0, array_ptrs[10]),
        board_height: saved.board_height,
        board_width: saved.board_width,
        unknown10: saved.unknown10,
        unknown11: saved.unknown11,
    }
}

/// The pointers of the record's arrays, in order.
pub open spec fn game_array_ptrs(g: GameData) -> Seq<u64> {
    game_arrays(g).map_values(|a: ArrayWithCap| a.array_ptr)
}

/// Building a record from a saved copy of it gives the record back: when
/// every saved array keeps its array's length and capacity (as `saved_array`
/// does) and is placed back at its array's address, the record built from
/// the saved copy is the original record.
pub proof fn lemma_restore_undoes_save(g: GameData, arrays: Seq<SavedArrayWithCap>)
    requires
        arrays.len() == NUM_GAME_ARRAYS,
        forall|k: int|
            0 <= k < NUM_GAME_ARRAYS ==> (#[trigger] arrays[k]).array_len == game_arrays(g)[k].array_len
                && arrays[k].array_cap == game_arrays(g)[k].array_cap,
    ensures
        restored_game_spec(saved_game_spec(g, arrays), game_array_ptrs(g)) == g,
{
    let a = arrays;
    assert(a[0].array_len == g.board_array.array_len);
    assert(a[1].array_len == g.array_40.array_len);
    assert(a[2].array_len == g.array_50.array_len);
    assert(a[3].array_len == g.array_60.array_len);
    assert(a[4].array_len == g.array_70.array_len);
    assert(a[5].array_len == g.array_80.array_len);
    assert(a[6].array_len == g.array_90.array_len);
    assert(a[7].array_len == g.array_a0.array_len);
    assert(a[8].array_len == g.array_b0.array_len);
    assert(a[9].array_len == g.array_c0.array_len);
    assert(a[10].array_len == g.array_d0.array_len);
}

} // verus!
