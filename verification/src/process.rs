//! The decisions made around reading and writing the game process: where the
//! board records lie, how long a module's name is, how a block of bytes is
//! copied into the process in buffer-sized pieces, and which part of the
//! output is new.

use vstd::prelude::*;
use vstd::string::*;
use crate::text::push_char;

verus! {

/// The addresses of `num_boards` records of `stride` bytes laid out one after
/// another from `first`.
pub fn board_addresses(first: u64, num_boards: u32, stride: u64) -> (addresses: Vec<u64>)
    requires
        first + num_boards * stride <= u64::MAX,
    ensures
        addresses@.len() == num_boards,
        forall|k: int| 0 <= k < num_boards ==> addresses@[k] == first + k * stride,
{
    let mut address = first;
    let mut board_vec: Vec<u64> = Vec::new();
    let mut k: u32 = 0;
    while k < num_boards
        invariant
            first + num_boards * stride <= u64::MAX,
            k <= num_boards,
            address == first + k * stride,
            board_vec@.len() == k,
            forall|j: int| 0 <= j < k ==> board_vec@[j] == first + j * stride,
        decreases num_boards - k,
    {
        board_vec.push(address);
        proof {
            assert((k + 1) * stride <= num_boards * stride) by (nonlinear_arith)
                requires
                    k < num_boards,
            ;
            assert((k + 1) * stride == k * stride + stride) by (nonlinear_arith);
        }
        address = address + stride;
        k = k + 1;
    }
    board_vec
}

/// The index of the first zero in `units`.
pub open spec fn first_zero(units: Seq<u16>, start: int) -> int
    decreases units.len() - start,
{
    if start < 0 || start >= units.len() {
        units.len() as int
    } else if units[start] == 0 {
        start
    } else {
        first_zero(units, start + 1)
    }
}

/// The number of UTF-16 units of a zero-terminated name in `buffer`.
pub fn wide_name_len(buffer: &Vec<u16>) -> (count: usize)
    requires
        exists|k: int| 0 <= k < buffer@.len() && buffer@[k] == 0,
    ensures
        count == first_zero(buffer@, 0),
        count < buffer@.len(),
        buffer@[count as int] == 0,
        forall|k: int| 0 <= k < count ==> buffer@[k] != 0,
{
    let n = buffer.len();
    let mut count: usize = 0;
    while buffer[count] != 0
        invariant
            n == buffer@.len(),
            count < buffer@.len(),
            exists|k: int| count <= k < buffer@.len() && buffer@[k] == 0,
            forall|k: int| 0 <= k < count ==> buffer@[k] != 0,
            first_zero(buffer@, 0) == first_zero(buffer@, count as int),
        decreases buffer@.len() - count,
    {
        count = count + 1;
    }
    count
}

/// What is left of `s` to print when `printed` was printed before: its
/// characters at positions after `printed`'s length in bytes (the character
/// at that very position is skipped).
pub open spec fn unprinted(printed_len: int, s: Seq<char>) -> Seq<char> {
    if printed_len + 1 <= s.len() {
        s.skip(printed_len + 1)
    } else {
        Seq::empty()
    }
}

/// The part of `my_str` still to be printed after `printed`.
pub fn unprinted_part(printed: &str, my_str: &str) -> (part: String)
    ensures
        part@ == unprinted(printed.len() as int, my_str@),
{
    let length = printed.len();
    let n = my_str.unicode_len();
    let mut part = String::new();
    let mut i: usize = 0;
    while i < n
        invariant
            n == my_str@.len(),
            length == printed.len(),
            i <= n,
            part@ == (if length + 1 <= i {
                my_str@.subrange(length + 1, i as int)
            } else {
                Seq::empty()
            }),
        decreases n - i,
    {
        if i > length {
            push_char(&mut part, my_str.get_char(i));
        }
        i = i + 1;
        assert(part@ =~= (if length + 1 <= i {
            my_str@.subrange(length + 1, i as int)
        } else {
            Seq::empty()
        }));
    }
    assert(part@ =~= unprinted(printed.len() as int, my_str@));
    part
}

/// The size of the buffer that bytes are copied through into another process.
pub const WRITE_BUFFER_SIZE: usize = 1024;

/// How far a copy of `num_bytes` bytes into another process has come:
/// `written` bytes reported written, `left` bytes still to write by the
/// count of buffers handed out, and whether the last piece was written.
#[derive(Debug, Clone, Copy, PartialEq, Eq, Structural)]
pub struct ChunkedWrite {
    pub num_bytes: usize,
    pub written: usize,
    pub left: usize,
    pub finished: bool,
}

/// The next thing to do in a copy: write `len` bytes at `offset` from the
/// start of the destination, from a buffer filled with the source bytes
/// `from..to` (`last` when it is the copy's final write, after the
/// buffer-sized ones); or nothing, the copy being complete.
#[derive(Debug, Clone, Copy, PartialEq, Eq, Structural)]
pub enum WriteAction {
    Write { offset: usize, from: usize, to: usize, len: usize, last: bool },
    Done,
}

/// The state of a copy of `num_bytes` bytes that has not started.
pub open spec fn write_start(num_bytes: usize) -> ChunkedWrite {
    ChunkedWrite { num_bytes, written: 0, left: num_bytes, finished: false }
}

/// The next step of a copy: a full buffer while more than a buffer is left,
/// then one last write of what is left, from the source bytes after those
/// reported written.
pub open spec fn next_write_spec(state: ChunkedWrite) -> WriteAction {
    if state.finished {
        WriteAction::Done
    } else if state.left > WRITE_BUFFER_SIZE {
        WriteAction::Write {
            offset: state.written,
            from: state.written,
            to: (state.written + WRITE_BUFFER_SIZE) as usize,
            len: WRITE_BUFFER_SIZE,
            last: false,
        }
    } else {
        WriteAction::Write {
            offset: state.written,
            from: state.written,
            to: if state.written < state.num_bytes {
                state.num_bytes
            } else {
                state.written
            },
            len: state.left,
            last: true,
        }
    }
}

/// The state after a write that reported `bytes_written` bytes written.
pub open spec fn after_write_spec(state: ChunkedWrite, bytes_written: usize) -> ChunkedWrite {
    if state.finished {
        state
    } else if state.left > WRITE_BUFFER_SIZE {
        ChunkedWrite {
            written: (state.written + bytes_written) as usize,
            left: (state.left - WRITE_BUFFER_SIZE) as usize,
            ..state
        }
    } else {
        ChunkedWrite { written: (state.written + bytes_written) as usize, finished: true, ..state }
    }
}

/// A copy's state keeps the count of written bytes within what was asked for.
pub open spec fn chunked_write_wf(state: ChunkedWrite) -> bool {
    &&& state.left <= state.num_bytes
    &&& if state.finished {
        state.written <= state.num_bytes
    } else {
        state.written <= state.num_bytes - state.left
    }
}

/// Starts a copy of `num_bytes` bytes.
pub fn start_write(num_bytes: usize) -> (state: ChunkedWrite)
    ensures
        state == write_start(num_bytes),
        chunked_write_wf(state),
{
    ChunkedWrite { num_bytes, written: 0, left: num_bytes, finished: false }
}

/// The next step of a copy.
pub fn next_write(state: &ChunkedWrite) -> (action: WriteAction)
    requires
        chunked_write_wf(*state),
    ensures
        action == next_write_spec(*state),
{
    if state.finished {
        WriteAction::Done
    } else if state.left > WRITE_BUFFER_SIZE {
        WriteAction::Write {
            offset: state.written,
            from: state.written,
            to: state.written + WRITE_BUFFER_SIZE,
            len: WRITE_BUFFER_SIZE,
            last: false,
        }
    } else {
        let to = if state.written < state.num_bytes {
            state.num_bytes
        } else {
            state.written
        };
        WriteAction::Write {
            offset: state.written,
            from: state.written,
            to,
            len: state.left,
            last: true,
        }
    }
}

/// Records a write of the step `next_write` gave that reported
/// `bytes_written` bytes written (at most the bytes it was asked to write).
pub fn after_write(state: &ChunkedWrite, bytes_written: usize) -> (next: ChunkedWrite)
    requires
        chunked_write_wf(*state),
        next_write_spec(*state) matches WriteAction::Write { len, .. } && bytes_written <= len,
    ensures
        next == after_write_spec(*state, bytes_written),
        chunked_write_wf(next),
{
    if state.finished {
        *state
    } else if state.left > WRITE_BUFFER_SIZE {
        ChunkedWrite {
            num_bytes: state.num_bytes,
            written: state.written + bytes_written,
            left: state.left - WRITE_BUFFER_SIZE,
            finished: false,
        }
    } else {
        ChunkedWrite {
            num_bytes: state.num_bytes,
            written: state.written + bytes_written,
            left: state.left,
            finished: true,
        }
    }
}

/// The buffer for a write: the source bytes `from..to` at its start, zeros
/// after them.
pub fn fill_write_buffer(bytes: &Vec<u8>, from: usize, to: usize) -> (buffer: Vec<u8>)
    requires
        from <= to <= bytes@.len(),
        to - from <= WRITE_BUFFER_SIZE,
    ensures
        buffer@.len() == WRITE_BUFFER_SIZE,
        forall|k: int| 0 <= k < to - from ==> buffer@[k] == bytes@[from + k],
        forall|k: int| to - from <= k < WRITE_BUFFER_SIZE ==> buffer@[k] == 0,
{
    let mut buffer: Vec<u8> = Vec::new();
    let mut k: usize = 0;
    while k < WRITE_BUFFER_SIZE
        invariant
            from <= to <= bytes@.len(),
            to - from <= WRITE_BUFFER_SIZE,
            k <= WRITE_BUFFER_SIZE,
            buffer@.len() == k,
            forall|j: int| 0 <= j < k && j < to - from ==> buffer@[j] == bytes@[from + j],
            forall|j: int| to - from <= j < k ==> buffer@[j] == 0,
        decreases WRITE_BUFFER_SIZE - k,
    {
        if k < to - from {
            buffer.push(bytes[from + k]);
        } else {
            buffer.push(0);
        }
        k = k + 1;
    }
    buffer
}

/// When every write writes all it was asked to, a copy writes the source
/// bytes in order without gaps: each write starts where the bytes written
/// so far end and takes the source bytes from there, the buffers handed out
/// before the last one add up with what is left to the whole block, and the
/// last write ends the copy with exactly `num_bytes` bytes written.
pub proof fn lemma_full_writes_are_contiguous(state: ChunkedWrite)
    requires
        !state.finished,
        state.written + state.left == state.num_bytes,
    ensures
        next_write_spec(state) matches WriteAction::Write { offset, from, to, len, .. } && offset
            == state.written && from == state.written && to - from == len,
        ({
            let len = next_write_spec(state)->len;
            let next = after_write_spec(state, len);
            if state.left > WRITE_BUFFER_SIZE {
                !next.finished && next.written + next.left == state.num_bytes
                    && next.left < state.left
            } else {
                next.finished && next.written == state.num_bytes
            }
        }),
{
}

/// The state a copy ends in when every write writes all it was asked to.
pub open spec fn copied_in_full(state: ChunkedWrite) -> ChunkedWrite
    decreases state.left, (if state.finished {
        0int
    } else {
        1int
    }),
{
    if state.finished {
        state
    } else {
        copied_in_full(after_write_spec(state, next_write_spec(state)->len))
    }
}

proof fn lemma_copied_in_full_from(state: ChunkedWrite)
    requires
        !state.finished,
        state.written + state.left == state.num_bytes,
    ensures
        copied_in_full(state).finished,
        copied_in_full(state).num_bytes == state.num_bytes,
        copied_in_full(state).written == state.num_bytes,
    decreases state.left,
{
    lemma_full_writes_are_contiguous(state);
    let next = after_write_spec(state, next_write_spec(state)->len);
    assert(copied_in_full(state) == copied_in_full(next));
    if state.left > WRITE_BUFFER_SIZE {
        lemma_copied_in_full_from(next);
    } else {
        assert(copied_in_full(next) == next);
    }
}

/// A copy in which every write writes all it was asked to ends having
/// written exactly the `num_bytes` bytes it was started for.
pub proof fn lemma_full_copy_writes_all(num_bytes: usize)
    ensures
        copied_in_full(write_start(num_bytes)).finished,
        copied_in_full(write_start(num_bytes)).written == num_bytes,
{
    lemma_copied_in_full_from(write_start(num_bytes));
}

/// The bytes of a zero-terminated name held as C `char`s, up to (without) the
/// first zero.
pub fn c_name_bytes(buffer: &Vec<i8>) -> (bytes: Vec<u8>)
    requires
        exists|k: int| 0 <= k < buffer@.len() && buffer@[k] == 0,
    ensures
        exists|n: int|
            0 <= n < buffer@.len() && buffer@[n] == 0 && (forall|k: int| 0 <= k < n ==> buffer@[k] != 0)
                && bytes@ == buffer@.subrange(0, n).map_values(|c: i8| c as u8),
{
    let len = buffer.len();
    let mut bytes: Vec<u8> = Vec::new();
    let mut count: usize = 0;
    while buffer[count] != 0
        invariant
            len == buffer@.len(),
            count < buffer@.len(),
            exists|k: int| count <= k < buffer@.len() && buffer@[k] == 0,
            forall|k: int| 0 <= k < count ==> buffer@[k] != 0,
            bytes@ == buffer@.subrange(0, count as int).map_values(|c: i8| c as u8),
        decreases buffer@.len() - count,
    {
        bytes.push(buffer[count] as u8);
        count = count + 1;
        assert(bytes@ =~= buffer@.subrange(0, count as int).map_values(|c: i8| c as u8));
    }
    bytes
}

} // verus!
