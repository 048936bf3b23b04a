use pv::copier::StreamCopier;

#[test]
fn two_blocks_of_1000() {
    // 1000 bytes at block size 512: two writes, 512 then 488, output == input.
    let input: Vec<u8> = (0..1000u32).map(|i| (i % 251) as u8).collect();
    let mut copier = StreamCopier::new(512);
    let mut writes: Vec<Vec<u8>> = Vec::new();

    let mut offset: usize = 0;
    while offset < input.len() {
        let space = copier.space();
        let take = space.min(input.len() - offset);
        let chunk = &input[offset..offset + take];
        if let Some(w) = copier.accept_read(chunk) {
            writes.push(w);
        }
        offset += take;
    }
    if let Some(w) = copier.finish() {
        writes.push(w);
    }

    assert_eq!(writes.len(), 2);
    assert_eq!(writes[0].len(), 512);
    assert_eq!(writes[1].len(), 488);
    let output: Vec<u8> = writes.concat();
    assert_eq!(output, input);
}

#[test]
fn empty_input_writes_nothing() {
    // A zero-length input: no write at all, immediate success.
    let mut copier = StreamCopier::new(512);
    let w = copier.finish();
    assert!(w.is_none());
}

#[test]
fn exact_multiple_has_no_trailing_write() {
    // 512 bytes at block size 512: exactly one write, and the final flush
    // hands nothing more out.
    let input: Vec<u8> = vec![0xabu8; 512];
    let mut copier = StreamCopier::new(512);
    let w1 = copier.accept_read(&input);
    assert_eq!(w1.as_deref(), Some(&input[..]));
    let w2 = copier.finish();
    assert!(w2.is_none());
}

#[test]
fn dribbled_reads_coalesce_into_blocks() {
    // Reads smaller than a block accumulate; writes still come out block
    // sized, never empty, concatenating to the input.
    let input: Vec<u8> = (0..23u8).collect();
    let mut copier = StreamCopier::new(8);
    let mut writes: Vec<Vec<u8>> = Vec::new();

    let mut offset: usize = 0;
    while offset < input.len() {
        let space = copier.space();
        // read in dribs of at most 3 bytes
        let take = space.min(3).min(input.len() - offset);
        if let Some(w) = copier.accept_read(&input[offset..offset + take]) {
            writes.push(w);
        }
        offset += take;
    }
    if let Some(w) = copier.finish() {
        writes.push(w);
    }

    // 23 bytes in blocks of 8: three writes of 8, 8, 7.
    assert_eq!(writes.len(), 3);
    assert_eq!(writes[0].len(), 8);
    assert_eq!(writes[1].len(), 8);
    assert_eq!(writes[2].len(), 7);
    for w in &writes {
        assert!(!w.is_empty());
    }
    assert_eq!(writes.concat(), input);
}

#[test]
fn single_short_block() {
    // An input shorter than one block: exactly one write, at end of stream.
    let input: Vec<u8> = vec![1, 2, 3];
    let mut copier = StreamCopier::new(512);
    let w1 = copier.accept_read(&input);
    assert!(w1.is_none());
    let w2 = copier.finish();
    assert_eq!(w2.as_deref(), Some(&input[..]));
}

#[test]
fn block_size_one() {
    // Block size 1: every byte is its own write.
    let input: Vec<u8> = vec![9, 8, 7];
    let mut copier = StreamCopier::new(1);
    let mut writes: Vec<Vec<u8>> = Vec::new();
    for b in &input {
        if let Some(w) = copier.accept_read(std::slice::from_ref(b)) {
            writes.push(w);
        }
    }
    assert!(copier.finish().is_none());
    assert_eq!(writes.len(), 3);
    assert_eq!(writes.concat(), input);
}
