use unvet::npclient::{
    apply_signature_xor, enhance_in_place, read_i16_le, read_i8_signed, trackir_cksum, NpClientState, TirSignature,
    PART1_1_PREFIX, PART1_2_PREFIX, PART2_1_PREFIX, PART2_2_PREFIX,
};

/// The checksum as the TrackIR client library computes it, written out
/// independently to check the library against.
fn reference_cksum(bytes: &[u8]) -> u32 {
    if bytes.is_empty() {
        return 0;
    }
    let le = |o: usize| i16::from_le_bytes([bytes[o], bytes[o + 1]]) as i32;
    let mut rounds = bytes.len() >> 2;
    let rem = bytes.len() % 4;
    let mut offset = 0usize;
    let mut c = bytes.len() as i32;
    let mut a2;
    while rounds != 0 {
        let a0 = le(offset);
        a2 = le(offset + 2);
        offset += 4;
        c = c.wrapping_add(a0);
        a2 ^= c.wrapping_shl(5);
        a2 = a2.wrapping_shl(11);
        c ^= a2;
        c = c.wrapping_add(c >> 11);
        rounds -= 1;
    }
    match rem {
        3 => {
            let a0 = le(offset);
            a2 = (bytes[offset + 2] as i8) as i32;
            c = c.wrapping_add(a0);
            a2 = a2.wrapping_shl(2) ^ c;
            c ^= a2.wrapping_shl(16);
            a2 = c >> 11;
            c = c.wrapping_add(a2);
        },
        2 => {
            a2 = le(offset);
            c = c.wrapping_add(a2);
            c ^= c.wrapping_shl(11);
            a2 = c >> 17;
            c = c.wrapping_add(a2);
        },
        1 => {
            a2 = (bytes[offset] as i8) as i32;
            c = c.wrapping_add(a2);
            c ^= c.wrapping_shl(10);
            a2 = c >> 1;
            c = c.wrapping_add(a2);
        },
        _ => {},
    }
    c ^= c.wrapping_shl(3);
    c = c.wrapping_add(c >> 5);
    c ^= c.wrapping_shl(4);
    c = c.wrapping_add(c >> 17);
    c ^= c.wrapping_shl(25);
    c = c.wrapping_add(c >> 6);
    c as u32
}

fn reference_enhance(data: &mut [u8], table: &[u8; 8]) {
    let mut table_ptr = 0usize;
    let mut var = 0x88u8;
    let mut size = data.len();
    while size != 0 {
        size -= 1;
        let tmp = data[size];
        data[size] = tmp ^ table[table_ptr] ^ var;
        var = var.wrapping_add((size as u8).wrapping_add(tmp));
        table_ptr = (table_ptr + 1) % 8;
    }
}

#[test]
fn little_endian_and_signed_reads() {
    let bytes = [0x34, 0x12, 0xFF, 0xFF, 0x80];
    assert_eq!(read_i16_le(&bytes, 0), 0x1234);
    assert_eq!(read_i16_le(&bytes, 2), -1);
    assert_eq!(read_i8_signed(&bytes, 4), -128);
    assert_eq!(read_i8_signed(&bytes, 0), 0x34);
}

#[test]
fn checksum_matches_the_client_library() {
    assert_eq!(trackir_cksum(&[]), 0);
    for len in 1..40usize {
        let bytes: Vec<u8> = (0..len).map(|i| (i as u8).wrapping_mul(37).wrapping_add(11)).collect();
        assert_eq!(trackir_cksum(&bytes), reference_cksum(&bytes), "length {len}");
    }
    let frame = [0u8; 68];
    assert_eq!(trackir_cksum(&frame), reference_cksum(&frame));
}

#[test]
fn scrambling_matches_the_client_library() {
    let table = [0x8B, 0xFF, 0x4B, 0x1B, 0x66, 0x29, 0xA3, 0x3E];
    for len in [0usize, 1, 7, 8, 9, 68] {
        let original: Vec<u8> = (0..len).map(|i| (i as u8).wrapping_mul(13)).collect();
        let mut mine = original.clone();
        let mut theirs = original.clone();
        enhance_in_place(&mut mine, &table);
        reference_enhance(&mut theirs, &table);
        assert_eq!(mine, theirs, "length {len}");
    }
}

#[test]
fn signature_xor_pads_with_zero() {
    let mut out = [0xAAu8; 200];
    apply_signature_xor(&mut out, &[0x0F, 0xF0, 0x55], &[0xFF]);
    assert_eq!(&out[..4], &[0xF0, 0xF0, 0x55, 0x00]);
    assert!(out[4..].iter().all(|b| *b == 0));
}

#[test]
fn compatible_signature_has_prefixes_and_padding() {
    let sig = TirSignature::compatible();
    assert_eq!(sig.dll_signature.len(), 200);
    assert_eq!(sig.app_signature.len(), 200);
    assert_eq!(sig.dll_signature[0], 0x6d ^ 0x1d);
    assert_eq!(sig.app_signature[0], 0x8b ^ 0xe3);
    for i in 0..107 {
        assert_eq!(sig.dll_signature[i], PART1_2_PREFIX[i] ^ PART1_1_PREFIX[i]);
    }
    for i in 0..99 {
        assert_eq!(sig.app_signature[i], PART2_1_PREFIX[i] ^ PART2_2_PREFIX[i]);
    }
    assert!(sig.dll_signature[107..].iter().all(|b| *b == 0));
    assert!(sig.app_signature[99..].iter().all(|b| *b == 0));
}

#[test]
fn table_is_adopted_once_when_ids_agree() {
    let mut state = NpClientState::new();
    assert_eq!(state.frame_counter, 0);
    state.observe_heap(13602, 0, [1; 8]);
    assert!(!state.encryption_checked);
    state.observe_heap(13602, 13602, [0; 8]);
    assert!(state.encryption_checked);
    assert!(!state.encryption_enabled);
    state.observe_heap(13602, 13602, [1; 8]);
    assert!(!state.encryption_enabled);
    state.reset_encryption();
    state.observe_heap(7, 7, [0, 0, 0, 0, 0, 0, 0, 9]);
    assert!(state.encryption_enabled);
    assert_eq!(state.encryption_table, [0, 0, 0, 0, 0, 0, 0, 9]);
}

#[test]
fn frames_count_up_wrapping_and_are_sealed() {
    let mut state = NpClientState::new();
    assert_eq!(state.next_frame(), 1);
    state.frame_counter = i16::MAX;
    assert_eq!(state.next_frame(), i16::MIN);

    let mut block = vec![3u8; 68];
    state.seal_frame(&mut block);
    let mut expected = vec![3u8; 68];
    expected[4..8].copy_from_slice(&[0, 0, 0, 0]);
    let ck = reference_cksum(&expected);
    expected[4..8].copy_from_slice(&ck.to_le_bytes());
    assert_eq!(block, expected);

    state.observe_heap(1, 1, [5; 8]);
    let mut scrambled = vec![3u8; 68];
    state.seal_frame(&mut scrambled);
    reference_enhance(&mut expected, &[5; 8]);
    assert_eq!(scrambled, expected);
}

#[test]
fn a_sealed_block_checks_out_and_sealing_again_changes_nothing() {
    let state = NpClientState::new();
    let mut block: Vec<u8> = (0u8..68).map(|i| i.wrapping_mul(37)).collect();
    state.seal_frame(&mut block);
    let mut cleared = block.clone();
    cleared[4..8].copy_from_slice(&[0, 0, 0, 0]);
    assert_eq!(trackir_cksum(&cleared).to_le_bytes(), [block[4], block[5], block[6], block[7]]);
    let mut again = block.clone();
    state.seal_frame(&mut again);
    assert_eq!(again, block);
}
