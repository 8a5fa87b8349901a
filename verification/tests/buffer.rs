use iosock::buffer::FlipBuffer;

#[test]
fn new_buffer_is_empty() {
    let mut buf = FlipBuffer::new(8);
    assert_eq!(buf.write_space(), 8);
    let readable = buf.with_read();
    assert_eq!(readable.len(), 0);
}

#[test]
fn write_then_read_round_trip() {
    let mut buf = FlipBuffer::new(8);
    let n = buf.with_write(&[1, 2, 3]);
    assert_eq!(n, 3);
    let readable = buf.with_read();
    assert_eq!(readable, vec![1, 2, 3]);
    buf.consume(3);
    let rest = buf.with_read();
    assert_eq!(rest.len(), 0);
}

#[test]
fn read_exposes_only_written_bytes() {
    let mut buf = FlipBuffer::new(8);
    let n = buf.with_write(&[9, 9]);
    assert_eq!(n, 2);
    let readable = buf.with_read();
    assert_eq!(readable, vec![9, 9]);
}

#[test]
fn partial_consume_keeps_order() {
    let mut buf = FlipBuffer::new(8);
    assert_eq!(buf.with_write(b"abcdef"), 6);
    let readable = buf.with_read();
    assert_eq!(readable, b"abcdef".to_vec());
    buf.consume(2);
    let rest = buf.with_read();
    assert_eq!(rest, b"cdef".to_vec());
    buf.consume(4);
    assert_eq!(buf.with_read().len(), 0);
}

#[test]
fn partial_write_reports_accepted_count() {
    let mut buf = FlipBuffer::new(4);
    assert_eq!(buf.with_write(&[1, 2, 3]), 3);
    // One slot left on the write page: only one byte of three fits.
    assert_eq!(buf.with_write(&[4, 5, 6]), 1);
    let readable = buf.with_read();
    assert_eq!(readable, vec![1, 2, 3, 4]);
}

#[test]
fn capacity_gates_writes_without_reader() {
    let mut buf = FlipBuffer::new(4);
    // A full page is accepted outright.
    assert_eq!(buf.with_write(&[1, 2, 3, 4]), 4);
    // The drained (empty) read page is reclaimed by a flip: one more page.
    assert_eq!(buf.with_write(&[5, 6, 7, 8]), 4);
    // Both pages now hold unread bytes: the ninth byte is not accepted.
    assert_eq!(buf.write_space(), 0);
    assert_eq!(buf.with_write(&[9]), 0);
    // The reader drains its window; the next write flips and fits again.
    let readable = buf.with_read();
    assert_eq!(readable, vec![1, 2, 3, 4]);
    buf.consume(4);
    assert_eq!(buf.with_write(&[9]), 1);
    // Everything comes back out in order, nothing lost or duplicated.
    let second = buf.with_read();
    assert_eq!(second, vec![5, 6, 7, 8]);
    buf.consume(4);
    let third = buf.with_read();
    assert_eq!(third, vec![9]);
    buf.consume(1);
    assert_eq!(buf.with_read().len(), 0);
}

#[test]
fn zero_capacity_accepts_nothing() {
    let mut buf = FlipBuffer::new(0);
    assert_eq!(buf.with_write(&[1]), 0);
    assert_eq!(buf.with_read().len(), 0);
}

/// Drives a buffer with a deterministic pseudo-random interleaving of
/// partial writes, reads and consumes, mirroring it against a plain FIFO
/// model: every byte written comes out exactly once, in order.
#[test]
fn randomized_interleaving_matches_fifo_model() {
    let mut buf = FlipBuffer::new(8);
    let mut model: Vec<u8> = Vec::new();
    let mut seed: u64 = 0x2545F4914F6CDD1D;
    let mut next_byte: u8 = 0;
    let mut total_in: u64 = 0;
    let mut total_out: u64 = 0;
    for _ in 0..2000 {
        seed = seed.wrapping_mul(6364136223846793005).wrapping_add(1442695040888963407);
        let choice = (seed >> 33) % 3;
        let amount = ((seed >> 20) % 5) as usize;
        match choice {
            0 => {
                let mut data = Vec::new();
                for _ in 0..amount {
                    data.push(next_byte);
                    next_byte = next_byte.wrapping_add(1);
                }
                let accepted = buf.with_write(&data);
                assert!(accepted <= data.len());
                model.extend_from_slice(&data[..accepted]);
                // Rewind the generator for bytes the buffer did not take.
                next_byte = next_byte.wrapping_sub((data.len() - accepted) as u8);
                total_in += accepted as u64;
            }
            1 => {
                let readable = buf.with_read();
                assert_eq!(readable, model[..readable.len()].to_vec());
                let consumed = amount.min(readable.len());
                buf.consume(consumed);
                model.drain(..consumed);
                total_out += consumed as u64;
            }
            _ => {
                let readable = buf.with_read();
                assert!(readable.len() <= model.len());
                assert_eq!(readable, model[..readable.len()].to_vec());
            }
        }
        assert!(model.len() <= 16);
    }
    // Drain to the end: the totals balance exactly.
    loop {
        let readable = buf.with_read();
        if readable.is_empty() {
            break;
        }
        assert_eq!(readable, model[..readable.len()].to_vec());
        let consumed = readable.len();
        buf.consume(consumed);
        model.drain(..consumed);
        total_out += consumed as u64;
    }
    assert!(model.is_empty());
    assert_eq!(total_in, total_out);
}
