//! Pieces, moves and turns in the game's move notation.

use vstd::prelude::*;
use vstd::string::*;
use crate::text::{int_decimal, push_char, push_i32_decimal};

verus! {

/// A piece kind as it is written in move notation.
#[derive(Debug, Clone, Copy, PartialEq, Eq, Structural)]
pub enum Piece {
    Nothing,
    Pawn,
    Knight,
    Bishop,
    Rook,
    Queen,
    King,
    Unicorn,
    Dragon,
    Brawn,
    FourPointQueen,
    RoyalQueen,
    CommongKing,
}

/// The letters that name a piece in move notation (empty for `Nothing`).
pub open spec fn piece_letters(piece: Piece) -> Seq<char> {
    match piece {
        Piece::Pawn => seq!['P'],
        Piece::Knight => seq!['N'],
        Piece::Bishop => seq!['B'],
        Piece::Rook => seq!['R'],
        Piece::Queen => seq!['Q'],
        Piece::King => seq!['K'],
        Piece::Unicorn => seq!['U'],
        Piece::Dragon => seq!['D'],
        Piece::Brawn => seq!['B', 'R'],
        Piece::FourPointQueen => seq!['S'],
        Piece::RoyalQueen => seq!['R', 'Q'],
        Piece::CommongKing => seq!['C', 'K'],
        Piece::Nothing => seq![],
    }
}

impl<'a> From<Piece> for &'a str {
    fn from(piece: Piece) -> (s: &'a str)
        ensures
            s@ == piece_letters(piece),
    {
        let s: &'a str = match piece {
            Piece::Pawn => "P",
            Piece::Knight => "N",
            Piece::Bishop => "B",
            Piece::Rook => "R",
            Piece::Queen => "Q",
            Piece::King => "K",
            Piece::Unicorn => "U",
            Piece::Dragon => "D",
            Piece::Brawn => "BR",
            Piece::FourPointQueen => "S",
            Piece::RoyalQueen => "RQ",
            Piece::CommongKing => "CK",
            Piece::Nothing => "",
        };
        proof {
            reveal_strlit("P");
            reveal_strlit("N");
            reveal_strlit("B");
            reveal_strlit("R");
            reveal_strlit("Q");
            reveal_strlit("K");
            reveal_strlit("U");
            reveal_strlit("D");
            reveal_strlit("BR");
            reveal_strlit("S");
            reveal_strlit("RQ");
            reveal_strlit("CK");
            reveal_strlit("");
        }
        s
    }
}

impl<'a> vstd::std_specs::convert::FromSpecImpl<Piece> for &'a str {
    /// Two string slices with the same characters need not be the same slice,
    /// so the conversion is described by the characters of its result (in the
    /// `ensures` of `from`) and not by a fixed slice.
    open spec fn obeys_from_spec() -> bool {
        false
    }

    open spec fn from_spec(piece: Piece) -> &'a str {
        arbitrary()
    }
}

/// A square on a board: the board's timeline ("universe") and time, and the
/// row and column on that board.
#[derive(Debug, Clone, Copy, PartialEq, Eq, Structural)]
pub struct Location {
    pub universe: i32,
    pub time: i32,
    pub row: i32,
    pub col: i32,
}

/// One move of a piece, possibly across timelines or time.
#[derive(Debug, Clone, Copy, PartialEq, Eq, Structural)]
pub struct Move {
    pub start_loc: Location,
    pub end_loc: Location,
    pub start_piece: Piece,
    pub end_piece: Piece,
    pub is_jump: bool,
    pub is_branching: bool,
    pub does_capture: bool,
    pub moves_present: bool,
}

/// The side that plays a turn.
#[derive(Debug, Clone, Copy, PartialEq, Eq, Structural)]
pub enum Player {
    White,
    Black,
}

/// The moves one player made in one turn.
#[derive(Debug)]
pub struct Turn {
    pub moves: Vec<Move>,
    pub player: Player,
}

impl View for Turn {
    type V = (Seq<Move>, Player);

    open spec fn view(&self) -> (Seq<Move>, Player) {
        (self.moves@, self.player)
    }
}

/// The other side.
pub open spec fn other_player(player: Player) -> Player {
    match player {
        Player::White => Player::Black,
        Player::Black => Player::White,
    }
}

/// The letter of a column ("a" to "h"), or nothing for other columns.
pub open spec fn col_letter(col: i32) -> Seq<char> {
    if col == 0 {
        seq!['a']
    } else if col == 1 {
        seq!['b']
    } else if col == 2 {
        seq!['c']
    } else if col == 3 {
        seq!['d']
    } else if col == 4 {
        seq!['e']
    } else if col == 5 {
        seq!['f']
    } else if col == 6 {
        seq!['g']
    } else if col == 7 {
        seq!['h']
    } else {
        seq![]
    }
}

/// The letter of column `row` ("a" for 0 up to "h" for 7; "" otherwise).
pub fn col_to_string(row: i32) -> (s: &'static str)
    ensures
        s@ == col_letter(row),
{
    proof {
        reveal_strlit("a");
        reveal_strlit("b");
        reveal_strlit("c");
        reveal_strlit("d");
        reveal_strlit("e");
        reveal_strlit("f");
        reveal_strlit("g");
        reveal_strlit("h");
        reveal_strlit("");
    }
    match row {
        0 => "a",
        1 => "b",
        2 => "c",
        3 => "d",
        4 => "e",
        5 => "f",
        6 => "g",
        7 => "h",
        _ => "",
    }
}

/// A board's place in the multiverse: "(" timeline "T" time ")".
#[verifier::opaque]
pub open spec fn superphysical_notation(loc: Location) -> Seq<char> {
    seq!['('] + int_decimal(loc.universe as int) + seq!['T'] + int_decimal(loc.time as int) + seq![')']
}

/// A square on a board: its column letter and its row counted from 1.
#[verifier::opaque]
pub open spec fn square_notation(loc: Location) -> Seq<char> {
    col_letter(loc.col) + int_decimal(loc.row + 1)
}

/// The notation of one move (without the separating space). A jump to
/// another board names both boards and squares, with ">>" when it branches,
/// "x" when it captures and a trailing "~" when moves are present; any other
/// move names its board, the piece and the square it ends on.
pub open spec fn move_notation(m: Move) -> Seq<char> {
    if m.is_jump {
        superphysical_notation(m.start_loc) + piece_letters(m.start_piece) + square_notation(
            m.start_loc,
        ) + (if m.is_branching {
            seq!['>', '>']
        } else {
            seq!['>']
        }) + (if m.does_capture {
            seq!['x']
        } else {
            seq![]
        }) + superphysical_notation(m.end_loc) + square_notation(m.end_loc) + (if m.moves_present {
            seq!['~']
        } else {
            seq![]
        })
    } else {
        superphysical_notation(m.start_loc) + piece_letters(m.start_piece) + square_notation(
            m.end_loc,
        )
    }
}

/// The notation of a list of moves: each move followed by a space.
pub open spec fn moves_notation(moves: Seq<Move>) -> Seq<char>
    decreases moves.len(),
{
    if moves.len() == 0 {
        seq![]
    } else {
        moves_notation(moves.drop_last()) + move_notation(moves.last()) + seq![' ']
    }
}

/// The rows a move's notation names can be counted from 1 in an `i32`.
pub open spec fn notation_ok(m: Move) -> bool {
    &&& m.end_loc.row < i32::MAX
    &&& m.is_jump ==> m.start_loc.row < i32::MAX
}

fn push_superphysical(s: &mut String, loc: Location)
    ensures
        final(s)@ == old(s)@ + superphysical_notation(loc),
{
    push_char(s, '(');
    push_i32_decimal(s, loc.universe);
    push_char(s, 'T');
    push_i32_decimal(s, loc.time);
    push_char(s, ')');
    reveal(superphysical_notation);
    assert(final(s)@ =~= old(s)@ + superphysical_notation(loc));
}

fn push_square(s: &mut String, loc: Location)
    requires
        loc.row < i32::MAX,
    ensures
        final(s)@ == old(s)@ + square_notation(loc),
{
    s.append(col_to_string(loc.col));
    push_i32_decimal(s, loc.row + 1);
    reveal(square_notation);
    assert(final(s)@ =~= old(s)@ + square_notation(loc));
}

fn push_move(s: &mut String, single_move: Move)
    requires
        notation_ok(single_move),
    ensures
        final(s)@ == old(s)@ + move_notation(single_move),
{
    let ghost s0 = s@;
    let start_loc = single_move.start_loc;
    let end_loc = single_move.end_loc;
    let piece_s: &str = <&str>::from(single_move.start_piece);
    push_superphysical(s, start_loc);
    s.append(piece_s);
    let ghost head = superphysical_notation(start_loc) + piece_letters(single_move.start_piece);
    assert(s@ =~= s0 + head);
    if single_move.is_jump {
        push_square(s, start_loc);
        let ghost acc = head + square_notation(start_loc);
        assert(s@ =~= s0 + acc);
        push_char(s, '>');
        if single_move.is_branching {
            push_char(s, '>');
        }
        proof {
            acc = acc + (if single_move.is_branching {
                seq!['>', '>']
            } else {
                seq!['>']
            });
        }
        assert(s@ =~= s0 + acc);
        if single_move.does_capture {
            push_char(s, 'x');
        }
        proof {
            acc = acc + (if single_move.does_capture {
                seq!['x']
            } else {
                seq![]
            });
        }
        assert(s@ =~= s0 + acc);
        push_superphysical(s, end_loc);
        proof {
            acc = acc + superphysical_notation(end_loc);
        }
        assert(s@ =~= s0 + acc);
        push_square(s, end_loc);
        proof {
            acc = acc + square_notation(end_loc);
        }
        assert(s@ =~= s0 + acc);
        if single_move.moves_present {
            push_char(s, '~');
        }
        proof {
            acc = acc + (if single_move.moves_present {
                seq!['~']
            } else {
                seq![]
            });
        }
        assert(s@ =~= s0 + acc);
        assert(acc == move_notation(single_move));
    } else {
        push_square(s, end_loc);
        assert(s@ =~= s0 + (head + square_notation(end_loc)));
    }
}

impl Turn {
    /// The turn's moves in notation, each followed by a space.
    pub fn to_notation(&self) -> (s: String)
        requires
            forall|i: int| 0 <= i < self.moves@.len() ==> notation_ok(#[trigger] self.moves@[i]),
        ensures
            s@ == moves_notation(self.moves@),
    {
        let mut s = String::new();
        let mut i: usize = 0;
        while i < self.moves.len()
            invariant
                i <= self.moves@.len(),
                forall|k: int| 0 <= k < self.moves@.len() ==> notation_ok(#[trigger] self.moves@[k]),
                s@ == moves_notation(self.moves@.subrange(0, i as int)),
            decreases self.moves@.len() - i,
        {
            push_move(&mut s, self.moves[i]);
            push_char(&mut s, ' ');
            i = i + 1;
            assert(self.moves@.subrange(0, i as int).drop_last() =~= self.moves@.subrange(
                0,
                i - 1,
            ));
        }
        assert(self.moves@.subrange(0, i as int) =~= self.moves@);
        s
    }
}

/// The part of a jump's notation before its arrow: the start board, the
/// piece and the start square.
pub open spec fn jump_head(m: Move) -> Seq<char> {
    superphysical_notation(m.start_loc) + piece_letters(m.start_piece) + square_notation(m.start_loc)
}

/// In a jump's notation the start square is followed by ">", then by a
/// second ">" exactly when the jump branches, and after the arrow by "x"
/// exactly when it captures: whether it branches and whether it captures
/// are written independently of each other.
pub proof fn lemma_jump_arrow_and_capture(m: Move)
    requires
        m.is_jump,
    ensures
        ({
            let k = jump_head(m).len() as int;
            let n = move_notation(m);
            let after = if m.is_branching {
                k + 2
            } else {
                k + 1
            };
            &&& after < n.len()
            &&& n[k] == '>'
            &&& (n[k + 1] == '>') == m.is_branching
            &&& (n[after] == 'x') == m.does_capture
        }),
{
    reveal(superphysical_notation);
    let k = jump_head(m).len() as int;
    let arrow: Seq<char> = if m.is_branching {
        seq!['>', '>']
    } else {
        seq!['>']
    };
    let cap: Seq<char> = if m.does_capture {
        seq!['x']
    } else {
        seq![]
    };
    let end = superphysical_notation(m.end_loc);
    let tail = end + square_notation(m.end_loc) + (if m.moves_present {
        seq!['~']
    } else {
        seq![]
    });
    let n = move_notation(m);
    assert(n =~= jump_head(m) + arrow + cap + tail);
    assert(end[0] == '(');
    assert(tail[0] == '(');
    let after = k + arrow.len();
    assert(n[k] == arrow[0]);
    if m.is_branching {
        assert(n[k + 1] == arrow[1]);
    } else {
        assert(n[k + 1] == (cap + tail)[0]);
    }
    assert(n[after] == (cap + tail)[0]);
}

/// The notation of moves made one after another is the notation of the
/// first moves followed by that of the later ones.
pub proof fn lemma_moves_notation_concat(a: Seq<Move>, b: Seq<Move>)
    ensures
        moves_notation(a + b) == moves_notation(a) + moves_notation(b),
    decreases b.len(),
{
    if b.len() == 0 {
        assert(a + b =~= a);
        assert(moves_notation(a) + moves_notation(b) =~= moves_notation(a));
    } else {
        lemma_moves_notation_concat(a, b.drop_last());
        assert((a + b).drop_last() =~= a + b.drop_last());
        assert((a + b).last() == b.last());
        assert(moves_notation(a + b) =~= moves_notation(a) + moves_notation(b));
    }
}

} // verus!
