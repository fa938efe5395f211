use amm_sim_rs::types::trade_info::{
    decode_fee_pair, decode_string_bytes, decode_u256, encode_after_initialize, u256_to_usize,
    TradeInfo, SELECTOR_AFTER_INITIALIZE, SELECTOR_AFTER_SWAP, SELECTOR_GET_NAME,
};
use amm_sim_rs::types::wad::{Wad, MAX_FEE, WAD};

#[test]
fn test_encode_trade_info() {
    let trade = TradeInfo {
        is_buy: true,
        amount_x: Wad::new(WAD),     // 1.0
        amount_y: Wad::new(WAD * 2), // 2.0
        timestamp: 100,
        reserve_x: Wad::new(WAD * 1000),
        reserve_y: Wad::new(WAD * 1000),
    };

    let mut buffer = [0u8; 196];
    trade.encode_calldata(&mut buffer);

    // Check selector
    assert_eq!(&buffer[0..4], &[0xc2, 0xba, 0xbb, 0x57]);

    // Check is_buy
    assert_eq!(buffer[35], 1);

    // Decode and verify
    let decoded_x = decode_u256(&buffer[36..68]).unwrap();
    assert_eq!(decoded_x as i128, WAD);
}

#[test]
fn test_encode_after_initialize() {
    let calldata = encode_after_initialize(Wad::new(WAD * 1000), Wad::new(WAD * 1000));

    assert_eq!(&calldata[0..4], &SELECTOR_AFTER_INITIALIZE);
    assert_eq!(calldata.len(), 68);
}

#[test]
fn test_decode_fee_pair_rejects_out_of_range_fee() {
    let mut data = [0u8; 64];

    // Set bid_fee = MAX_FEE + 1 in low 16 bytes.
    let bad = (MAX_FEE as u128) + 1;
    data[16..32].copy_from_slice(&bad.to_be_bytes());

    // Set ask_fee = 30 bps.
    let ok = (30u128) * 100_000_000_000_000u128;
    data[48..64].copy_from_slice(&ok.to_be_bytes());

    assert!(decode_fee_pair(&data).is_none());
}

fn word(v: u128) -> [u8; 32] {
    let mut w = [0u8; 32];
    w[16..32].copy_from_slice(&v.to_be_bytes());
    w
}

#[test]
fn selectors_have_their_bytes() {
    assert_eq!(SELECTOR_AFTER_INITIALIZE, [0x83, 0x7a, 0xef, 0x47]);
    assert_eq!(SELECTOR_AFTER_SWAP, [0xc2, 0xba, 0xbb, 0x57]);
    assert_eq!(SELECTOR_GET_NAME, [0x17, 0xd7, 0xde, 0x7c]);
}

#[test]
fn swap_calldata_has_every_field_in_its_place() {
    let trade = TradeInfo::new(
        false,
        Wad::new(1),
        Wad::new(0x0102),
        u64::MAX,
        Wad::new(WAD * 1000),
        Wad::new(i128::MAX),
    );
    // Start from a dirty buffer: every byte must be written.
    let mut buffer = [0xaau8; 196];
    trade.encode_calldata(&mut buffer);

    let mut expected = Vec::new();
    expected.extend_from_slice(&[0xc2, 0xba, 0xbb, 0x57]);
    expected.extend_from_slice(&word(0));
    expected.extend_from_slice(&word(1));
    expected.extend_from_slice(&word(0x0102));
    expected.extend_from_slice(&word(u64::MAX as u128));
    expected.extend_from_slice(&word(1000 * WAD as u128));
    expected.extend_from_slice(&word(i128::MAX as u128));
    assert_eq!(buffer.to_vec(), expected);

    let buying = TradeInfo::new(true, Wad(0), Wad(0), 0, Wad(0), Wad(0));
    buying.encode_calldata(&mut buffer);
    assert_eq!(&buffer[4..36], &word(1));
    assert_eq!(&buffer[36..196], &[0u8; 160][..]);
}

#[test]
fn negative_amounts_are_written_in_twos_complement() {
    let trade = TradeInfo::new(true, Wad::new(-1), Wad::new(i128::MIN), 0, Wad(0), Wad(0));
    let mut buffer = [0u8; 196];
    trade.encode_calldata(&mut buffer);
    assert_eq!(&buffer[36..68], &word(u128::MAX));
    assert_eq!(&buffer[68..100], &word(1u128 << 127));

    let calldata = encode_after_initialize(Wad::new(-2), Wad::new(5));
    assert_eq!(&calldata[4..36], &word(u128::MAX - 1));
    assert_eq!(&calldata[36..68], &word(5));
}

#[test]
fn encode_u256_leaves_the_rest_alone() {
    let mut buffer = [0x11u8; 40];
    TradeInfo::encode_u256(&mut buffer, 4, 0x0a0b_0c0d);
    assert_eq!(&buffer[0..4], &[0x11; 4]);
    assert_eq!(&buffer[4..36], &word(0x0a0b_0c0d));
    assert_eq!(&buffer[36..40], &[0x11; 4]);
}

#[test]
fn after_initialize_calldata_layout() {
    let calldata = encode_after_initialize(Wad::new(WAD * 1000), Wad::new(7));
    let mut expected = Vec::new();
    expected.extend_from_slice(&[0x83, 0x7a, 0xef, 0x47]);
    expected.extend_from_slice(&word(1000 * WAD as u128));
    expected.extend_from_slice(&word(7));
    assert_eq!(calldata.to_vec(), expected);
}

#[test]
fn decode_u256_reads_the_low_half() {
    assert_eq!(decode_u256(&word(0)), Some(0));
    assert_eq!(decode_u256(&word(u128::MAX)), Some(u128::MAX));
    assert_eq!(decode_u256(&word(0x0102_0304)), Some(0x0102_0304));
    let mut high = word(5);
    high[15] = 1;
    assert_eq!(decode_u256(&high), None);
    high[15] = 0;
    high[0] = 0x80;
    assert_eq!(decode_u256(&high), None);
    assert_eq!(decode_u256(&[0u8; 31]), None);
    assert_eq!(decode_u256(&[0u8; 33]), None);
    assert_eq!(decode_u256(&[]), None);
}

#[test]
fn decode_fee_pair_accepts_fees_up_to_the_maximum() {
    let mut data = Vec::new();
    data.extend_from_slice(&word(30 * 100_000_000_000_000));
    data.extend_from_slice(&word(MAX_FEE as u128));
    assert_eq!(
        decode_fee_pair(&data),
        Some((Wad(30 * 100_000_000_000_000), Wad(MAX_FEE)))
    );
    // Bytes after the two words are ignored.
    data.extend_from_slice(&[0xff; 10]);
    assert_eq!(
        decode_fee_pair(&data),
        Some((Wad(30 * 100_000_000_000_000), Wad(MAX_FEE)))
    );
    let zero = [0u8; 64];
    assert_eq!(decode_fee_pair(&zero), Some((Wad(0), Wad(0))));
}

#[test]
fn decode_fee_pair_refuses_what_is_short_or_large() {
    assert_eq!(decode_fee_pair(&[0u8; 63]), None);
    assert_eq!(decode_fee_pair(&[]), None);

    let mut data = Vec::new();
    data.extend_from_slice(&word(1));
    data.extend_from_slice(&word(MAX_FEE as u128 + 1));
    assert_eq!(decode_fee_pair(&data), None);

    let mut wide = [0u8; 64];
    wide[0] = 1; // bid word does not fit in 128 bits
    assert_eq!(decode_fee_pair(&wide), None);
    let mut wide = [0u8; 64];
    wide[47] = 1; // ask word does not fit in 128 bits
    assert_eq!(decode_fee_pair(&wide), None);
}

#[test]
fn fee_pair_written_as_words_reads_back() {
    for (bid, ask) in [(0i128, 0i128), (1, MAX_FEE), (MAX_FEE, 25 * 100_000_000_000_000)] {
        let mut buffer = [0u8; 64];
        TradeInfo::encode_u256(&mut buffer, 0, bid as u128);
        TradeInfo::encode_u256(&mut buffer, 32, ask as u128);
        assert_eq!(decode_fee_pair(&buffer), Some((Wad(bid), Wad(ask))));
    }
}

#[test]
fn u256_to_usize_reads_what_fits() {
    assert_eq!(u256_to_usize(&word(0)), Some(0));
    assert_eq!(u256_to_usize(&word(64)), Some(64));
    assert_eq!(u256_to_usize(&word(usize::MAX as u128)), Some(usize::MAX));
    assert_eq!(u256_to_usize(&word(usize::MAX as u128 + 1)), None);
    assert_eq!(u256_to_usize(&[0u8; 8]), None);
}

fn abi_string(offset: u128, length: u128, body: &[u8]) -> Vec<u8> {
    let mut data = Vec::new();
    data.extend_from_slice(&word(offset));
    data.extend_from_slice(&word(length));
    data.extend_from_slice(body);
    data
}

#[test]
fn string_bytes_follow_the_length_word() {
    let mut body = b"Vanilla".to_vec();
    body.resize(32, 0);
    assert_eq!(decode_string_bytes(&abi_string(32, 7, &body)), Some(b"Vanilla".to_vec()));
    assert_eq!(decode_string_bytes(&abi_string(32, 0, &body)), Some(Vec::new()));
    assert_eq!(decode_string_bytes(&abi_string(32, 32, &body)), Some(body.clone()));
    // one byte more than there is
    assert_eq!(decode_string_bytes(&abi_string(32, 33, &body)), None);
    // shorter than two words
    assert_eq!(decode_string_bytes(&[0u8; 63]), None);
}

#[test]
fn string_offset_and_length_that_do_not_fit() {
    let mut body = b"abc".to_vec();
    body.resize(32, 0);
    // An offset word that does not fit a machine word holds nothing.
    let mut data = abi_string(0, 3, &body);
    data[0] = 1;
    assert_eq!(decode_string_bytes(&data), None);
    let mut data = abi_string(32, 3, &body);
    data[23] = 1;
    assert_eq!(decode_string_bytes(&data), None);
    // Nor does a length word that does not fit.
    let mut data = abi_string(32, 0, &body);
    data[32] = 1;
    assert_eq!(decode_string_bytes(&data), None);
    // An offset past the end holds nothing, however large.
    assert_eq!(decode_string_bytes(&abi_string(65, 0, &body)), None);
    assert_eq!(decode_string_bytes(&abi_string(usize::MAX as u128, 0, &body)), None);
    assert_eq!(decode_string_bytes(&abi_string(usize::MAX as u128 - 31, 0, &body)), None);
    // A length that runs past the end holds nothing, however large.
    assert_eq!(decode_string_bytes(&abi_string(32, usize::MAX as u128, &body)), None);
    // An offset of zero reads the first word as the length.
    let data = abi_string(0, 0, &[]);
    assert_eq!(decode_string_bytes(&data), Some(Vec::new()));
    // The length word may lie past the first two words.
    let mut data = abi_string(64, 0, &[]);
    data.extend_from_slice(&word(2));
    data.extend_from_slice(b"hi");
    assert_eq!(decode_string_bytes(&data), Some(b"hi".to_vec()));
}
