use tx_decoder::{
    read_amount, read_exact, read_input, read_inputs, read_output, read_outputs, read_script,
    read_txid, read_u32, Amount, DecodeError, Txid,
};

#[test]
fn read_exact_takes_from_the_front() {
    let buffer = [1_u8, 2, 3, 4, 5];
    let mut bytes = buffer.as_slice();
    assert_eq!(read_exact(&mut bytes, 2), Ok([1_u8, 2].as_slice()));
    assert_eq!(bytes, [3_u8, 4, 5].as_slice());
    assert_eq!(read_exact(&mut bytes, 0), Ok([0_u8; 0].as_slice()));
    assert_eq!(bytes, [3_u8, 4, 5].as_slice());
    assert_eq!(read_exact(&mut bytes, 3), Ok([3_u8, 4, 5].as_slice()));
    assert!(bytes.is_empty());
}

#[test]
fn read_exact_past_the_end_is_unexpected_eof() {
    let buffer = [1_u8, 2, 3];
    let mut bytes = buffer.as_slice();
    assert_eq!(read_exact(&mut bytes, 4), Err(DecodeError::UnexpectedEof));
    assert_eq!(bytes, [1_u8, 2, 3].as_slice());
    assert_eq!(read_exact(&mut bytes, usize::MAX), Err(DecodeError::UnexpectedEof));
    assert_eq!(bytes, [1_u8, 2, 3].as_slice());
}

#[test]
fn read_u32_is_little_endian() {
    let mut bytes = [0x78_u8, 0x56, 0x34, 0x12, 0xff].as_slice();
    assert_eq!(read_u32(&mut bytes), Ok(0x1234_5678));
    assert_eq!(bytes, [0xff_u8].as_slice());

    let mut bytes = [0xff_u8, 0xff, 0xff, 0xff].as_slice();
    assert_eq!(read_u32(&mut bytes), Ok(u32::MAX));

    let mut bytes = [1_u8, 0, 0, 0].as_slice();
    assert_eq!(read_u32(&mut bytes), Ok(1));
}

#[test]
fn read_u32_short_is_unexpected_eof() {
    let mut bytes = [1_u8, 2, 3].as_slice();
    assert_eq!(read_u32(&mut bytes), Err(DecodeError::UnexpectedEof));
    assert_eq!(bytes, [1_u8, 2, 3].as_slice());
}

#[test]
fn read_amount_is_little_endian_satoshis() {
    let mut bytes = [0x60_u8, 0x6e, 0x39, 0, 0, 0, 0, 0, 0x19].as_slice();
    let amount = read_amount(&mut bytes).unwrap();
    assert_eq!(amount.to_sat(), 3_763_808);
    assert_eq!(amount, Amount::from_sat(3_763_808));
    assert_eq!(bytes, [0x19_u8].as_slice());

    let mut bytes = [0xef_u8, 0xcd, 0xab, 0x89, 0x67, 0x45, 0x23, 0x01].as_slice();
    assert_eq!(read_amount(&mut bytes).unwrap().to_sat(), 0x0123_4567_89ab_cdef);

    let mut bytes = [0xff_u8; 8].as_slice();
    assert_eq!(read_amount(&mut bytes).unwrap().to_sat(), u64::MAX);
}

#[test]
fn read_amount_short_is_unexpected_eof() {
    let mut bytes = [0_u8; 7].as_slice();
    assert_eq!(read_amount(&mut bytes), Err(DecodeError::UnexpectedEof));
    assert_eq!(bytes.len(), 7);
}

#[test]
fn read_txid_reverses_the_wire_bytes() {
    let mut wire = [0_u8; 33];
    for i in 0..33 {
        wire[i] = i as u8;
    }
    let mut bytes = wire.as_slice();
    let txid = read_txid(&mut bytes).unwrap();
    let mut expected = [0_u8; 32];
    for i in 0..32 {
        expected[i] = (31 - i) as u8;
    }
    assert_eq!(txid.to_bytes(), expected);
    assert_eq!(txid, Txid::from_bytes(expected));
    assert_eq!(
        txid.to_hex(),
        "1f1e1d1c1b1a191817161514131211100f0e0d0c0b0a09080706050403020100"
    );
    assert_eq!(bytes, [32_u8].as_slice());
}

#[test]
fn read_txid_short_is_unexpected_eof() {
    let mut bytes = [7_u8; 31].as_slice();
    assert_eq!(read_txid(&mut bytes), Err(DecodeError::UnexpectedEof));
    assert_eq!(bytes.len(), 31);
}

#[test]
fn txid_keeps_display_order() {
    let mut display = [0_u8; 32];
    display[0] = 0xab;
    display[31] = 0x01;
    let txid = Txid::from_bytes(display);
    assert_eq!(txid.to_bytes(), display);
    assert_eq!(
        txid.to_hex(),
        "ab00000000000000000000000000000000000000000000000000000000000001"
    );
    let turned = Txid::from_reversed(display);
    assert_eq!(
        turned.to_hex(),
        "01000000000000000000000000000000000000000000000000000000000000ab"
    );
    assert_eq!(Txid::from_reversed(turned.to_bytes()), txid);
}

#[test]
fn read_script_gives_lower_case_hex() {
    let mut bytes = [3_u8, 0xAB, 0x00, 0x0f, 0x99].as_slice();
    assert_eq!(read_script(&mut bytes), Ok("ab000f".to_string()));
    assert_eq!(bytes, [0x99_u8].as_slice());
}

#[test]
fn read_script_of_no_bytes_is_empty_text() {
    let mut bytes = [0_u8, 0x99].as_slice();
    assert_eq!(read_script(&mut bytes), Ok(String::new()));
    assert_eq!(bytes, [0x99_u8].as_slice());
}

#[test]
fn read_script_with_a_long_length_form() {
    let mut buffer = vec![253_u8, 0x00, 0x01];
    buffer.extend(std::iter::repeat(0x5a_u8).take(256));
    buffer.push(0x77);
    let mut bytes = buffer.as_slice();
    let script = read_script(&mut bytes).unwrap();
    assert_eq!(script.len(), 512);
    assert_eq!(script, "5a".repeat(256));
    assert_eq!(bytes, [0x77_u8].as_slice());
}

#[test]
fn read_script_truncated_is_unexpected_eof() {
    let mut bytes = [4_u8, 1, 2, 3].as_slice();
    assert_eq!(read_script(&mut bytes), Err(DecodeError::UnexpectedEof));
    assert_eq!(bytes, [4_u8, 1, 2, 3].as_slice());

    let mut bytes = [0_u8; 0].as_slice();
    assert_eq!(read_script(&mut bytes), Err(DecodeError::UnexpectedEof));

    let mut bytes = [255_u8, 0xff, 0xff, 0xff, 0xff, 0xff, 0xff, 0xff, 0xff, 1, 2].as_slice();
    assert_eq!(read_script(&mut bytes), Err(DecodeError::UnexpectedEof));
    assert_eq!(bytes.len(), 11);
}

fn one_input() -> Vec<u8> {
    let mut buffer = Vec::new();
    for i in 0..32_u8 {
        buffer.push(i);
    }
    buffer.extend([2_u8, 0, 0, 0]);
    buffer.extend([2_u8, 0xde, 0xad]);
    buffer.extend([0xfe_u8, 0xff, 0xff, 0xff]);
    buffer
}

#[test]
fn read_input_reads_four_fields_in_order() {
    let mut buffer = one_input();
    buffer.push(0x42);
    let mut bytes = buffer.as_slice();
    let input = read_input(&mut bytes).unwrap();
    assert_eq!(
        input.txid.to_hex(),
        "1f1e1d1c1b1a191817161514131211100f0e0d0c0b0a09080706050403020100"
    );
    assert_eq!(input.output_index, 2);
    assert_eq!(input.script_sig, "dead");
    assert_eq!(input.sequence, 0xffff_fffe);
    assert_eq!(bytes, [0x42_u8].as_slice());
}

#[test]
fn read_input_truncated_leaves_the_cursor() {
    let buffer = one_input();
    for cut in 0..buffer.len() {
        let mut bytes = &buffer[..cut];
        assert_eq!(read_input(&mut bytes), Err(DecodeError::UnexpectedEof));
        assert_eq!(bytes, &buffer[..cut]);
    }
}

#[test]
fn read_output_reads_amount_then_script() {
    let buffer = [0x44_u8, 0x01, 0x24, 0, 0, 0, 0, 0, 1, 0x6a, 0x42];
    let mut bytes = buffer.as_slice();
    let output = read_output(&mut bytes).unwrap();
    assert_eq!(output.amount.to_sat(), 2_359_620);
    assert_eq!(output.script_pubkey, "6a");
    assert_eq!(bytes, [0x42_u8].as_slice());

    for cut in 0..10 {
        let mut bytes = &buffer[..cut];
        assert_eq!(read_output(&mut bytes), Err(DecodeError::UnexpectedEof));
        assert_eq!(bytes, &buffer[..cut]);
    }
}

#[test]
fn read_inputs_reads_exactly_the_count() {
    let mut buffer = one_input();
    buffer.extend(one_input());
    buffer.extend(one_input());
    let mut bytes = buffer.as_slice();
    let inputs = read_inputs(&mut bytes, 2).unwrap();
    assert_eq!(inputs.len(), 2);
    assert_eq!(inputs[0], inputs[1]);
    assert_eq!(bytes.len(), one_input().len());

    let mut bytes = buffer.as_slice();
    assert_eq!(read_inputs(&mut bytes, 0), Ok(Vec::new()));
    assert_eq!(bytes.len(), buffer.len());

    let mut bytes = buffer.as_slice();
    assert_eq!(read_inputs(&mut bytes, 4), Err(DecodeError::UnexpectedEof));
    assert_eq!(bytes.len(), buffer.len());

    let mut bytes = buffer.as_slice();
    assert_eq!(read_inputs(&mut bytes, u64::MAX), Err(DecodeError::UnexpectedEof));
    assert_eq!(bytes.len(), buffer.len());
}

#[test]
fn read_outputs_reads_exactly_the_count() {
    let buffer = [1_u8, 0, 0, 0, 0, 0, 0, 0, 0, 2, 0, 0, 0, 0, 0, 0, 0, 1, 0x51, 0x99];
    let mut bytes = buffer.as_slice();
    let outputs = read_outputs(&mut bytes, 2).unwrap();
    assert_eq!(outputs.len(), 2);
    assert_eq!(outputs[0].amount.to_sat(), 1);
    assert_eq!(outputs[0].script_pubkey, "");
    assert_eq!(outputs[1].amount.to_sat(), 2);
    assert_eq!(outputs[1].script_pubkey, "51");
    assert_eq!(bytes, [0x99_u8].as_slice());

    let mut bytes = buffer.as_slice();
    assert_eq!(read_outputs(&mut bytes, 3), Err(DecodeError::UnexpectedEof));
    assert_eq!(bytes.len(), buffer.len());
}
