use chess5d_reader::process::{
    after_write, board_addresses, c_name_bytes, fill_write_buffer, next_write, start_write,
    unprinted_part, wide_name_len, WriteAction, WRITE_BUFFER_SIZE,
};

#[test]
fn addresses_step_by_stride() {
    assert_eq!(board_addresses(0x1000, 3, 0xe4), vec![0x1000, 0x10e4, 0x11c8]);
    assert_eq!(board_addresses(5, 0, 0xe4), Vec::<u64>::new());
}

#[test]
fn wide_names_end_at_zero() {
    let mut buf = vec![0u16; 40];
    for (i, c) in "game.exe".encode_utf16().enumerate() {
        buf[i] = c;
    }
    assert_eq!(wide_name_len(&buf), 8);
    assert_eq!(wide_name_len(&vec![0u16, 5]), 0);
}

#[test]
fn c_names_end_at_zero() {
    let mut buf = vec![0i8; 10];
    for (i, b) in "abc".bytes().enumerate() {
        buf[i] = b as i8;
    }
    buf[4] = 'z' as i8;
    assert_eq!(c_name_bytes(&buf), b"abc".to_vec());
    assert_eq!(c_name_bytes(&vec![-1i8, 0]), vec![255u8]);
}

#[test]
fn only_new_text_is_printed() {
    // characters after the printed length are new; the one at that length is skipped
    assert_eq!(unprinted_part("", "abc"), "bc");
    assert_eq!(unprinted_part("ab", "abcde"), "de");
    assert_eq!(unprinted_part("abc", "abc"), "");
    assert_eq!(unprinted_part("abcdef", "abc"), "");
}

/// Runs a copy of `bytes`, with writes that write at most `cap` bytes each,
/// into a destination buffer; gives the destination and the writes made.
fn run_copy(bytes: &Vec<u8>, cap: usize) -> (Vec<u8>, Vec<(usize, usize)>) {
    let mut dest = vec![0u8; bytes.len() + 2 * WRITE_BUFFER_SIZE];
    let mut writes = Vec::new();
    let mut state = start_write(bytes.len());
    loop {
        match next_write(&state) {
            WriteAction::Done => return (dest, writes),
            WriteAction::Write { offset, from, to, len, last } => {
                assert_eq!(last, state.left <= WRITE_BUFFER_SIZE);
                let buffer = fill_write_buffer(bytes, from, to);
                let n = len.min(cap);
                dest[offset..offset + n].copy_from_slice(&buffer[..n]);
                writes.push((offset, len));
                state = after_write(&state, n);
            }
        }
    }
}

#[test]
fn full_writes_copy_everything_in_order() {
    let bytes: Vec<u8> = (0..2500u32).map(|i| (i % 251) as u8).collect();
    let (dest, writes) = run_copy(&bytes, usize::MAX);
    assert_eq!(writes, vec![(0, 1024), (1024, 1024), (2048, 452)]);
    assert_eq!(&dest[..2500], &bytes[..]);
    assert!(dest[2500..].iter().all(|b| *b == 0));
}

#[test]
fn small_and_empty_copies() {
    let (dest, writes) = run_copy(&vec![7u8; 1024], usize::MAX);
    assert_eq!(writes, vec![(0, 1024)]);
    assert_eq!(&dest[..1024], &[7u8; 1024][..]);
    let (_, writes) = run_copy(&vec![], usize::MAX);
    assert_eq!(writes, vec![(0, 0)]);
}

#[test]
fn short_writes_move_the_next_write_back() {
    let bytes: Vec<u8> = (0..1500u32).map(|i| (i % 7) as u8).collect();
    let (_, writes) = run_copy(&bytes, 1000);
    // the second write starts where the first one stopped
    assert_eq!(writes, vec![(0, 1024), (1000, 476)]);
}

#[test]
fn write_buffer_is_padded_with_zeros() {
    let bytes = vec![1u8, 2, 3, 4];
    let buffer = fill_write_buffer(&bytes, 1, 3);
    assert_eq!(buffer.len(), WRITE_BUFFER_SIZE);
    assert_eq!(&buffer[..3], &[2, 3, 0]);
}

#[test]
fn full_copy_ends_with_every_byte_written() {
    for n in [0usize, 1, 1023, 1024, 1025, 4096, 5000] {
        let mut state = start_write(n);
        while let WriteAction::Write { len, .. } = next_write(&state) {
            state = after_write(&state, len);
        }
        assert!(state.finished);
        assert_eq!(state.written, n);
    }
}
