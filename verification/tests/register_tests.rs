use solar_panel_sim::plant::PlantData;
use solar_panel_sim::registers::encode_block;
use solar_panel_sim::registers::f32_bits_from_micro;
use solar_panel_sim::registers::handle_read;
use solar_panel_sim::registers::read_registers;
use solar_panel_sim::registers::split_words;
use solar_panel_sim::registers::PlantBlock;
use solar_panel_sim::registers::EXC_ILLEGAL_FUNCTION;
use solar_panel_sim::registers::REG_FREQUENCY_HZ;
use solar_panel_sim::registers::REG_STATUS;

const ONE: i64 = 1_000_000;

/// The integer encoder agrees with the platform's IEEE 754 single
/// conversion on exactly representable values and on rounded ones.
#[test]
fn float_encoding_matches_ieee754() {
    let cases: [(i64, f32); 10] = [
        (123_500_000, 123.5),
        (0, 0.0),
        (1_000_000, 1.0),
        (500_000, 0.5),
        (230_000_000, 230.0),
        (50_000_000, 50.0),
        (-12_250_000, -12.25),
        (100_000, 0.1),
        (1, 0.000001),
        (999_999_875_000, 999999.875),
    ];
    for (micro, f) in cases {
        assert_eq!(
            f32_bits_from_micro(micro),
            f.to_bits(),
            "encoding mismatch for {} micro",
            micro
        );
    }
}

/// Reading the two registers of a float field and concatenating them
/// big-endian gives back the exact IEEE 754 encoding.
#[test]
fn float_word_round_trip() {
    for micro in [123_500_000i64, 1_000_000, -42_125_000, 987_654_321, 50_000_000] {
        let bits = f32_bits_from_micro(micro);
        let (hi, lo) = split_words(bits);
        assert_eq!(((hi as u32) << 16) | lo as u32, bits);
    }
}

/// Setting power to 123.5 kW and reading two registers at base + 0 gives
/// the big-endian IEEE 754 encoding of 123.5f32.
#[test]
fn power_read_is_big_endian_float() {
    let mut d = PlantData::default();
    d.power_kw = 123_500_000;
    let regs = encode_block(&d);
    let blocks = vec![PlantBlock { base: 0, regs }];
    let words = read_registers(&blocks, 0, 2);
    let expected = 123.5f32.to_bits();
    assert_eq!(words[0], (expected >> 16) as u16);
    assert_eq!(words[1], (expected & 0xFFFF) as u16);
    let bytes = [
        (words[0] >> 8) as u8,
        (words[0] & 0xFF) as u8,
        (words[1] >> 8) as u8,
        (words[1] & 0xFF) as u8,
    ];
    assert_eq!(bytes, 123.5f32.to_be_bytes());
}

#[test]
fn raw_words_and_frequency_land_at_their_offsets() {
    let mut d = PlantData::default();
    d.status = 5;
    d.fault_code = 301;
    d.alarm_flags = 0x1_0009;
    d.frequency_hz = 50 * ONE;
    let regs = encode_block(&d);
    assert_eq!(regs.len(), 100);
    assert_eq!(regs[REG_STATUS as usize], 5);
    assert_eq!(regs[55], 301);
    // Only the low sixteen alarm bits are exposed.
    assert_eq!(regs[56], 0x0009);
    let bits = 50.0f32.to_bits();
    assert_eq!(regs[REG_FREQUENCY_HZ as usize], (bits >> 16) as u16);
    assert_eq!(regs[REG_FREQUENCY_HZ as usize + 1], (bits & 0xFFFF) as u16);
}

/// Reads outside any mapped block return zero words, never an error.
#[test]
fn out_of_map_reads_return_zero() {
    let d = PlantData::default();
    let blocks = vec![PlantBlock { base: 100, regs: encode_block(&d) }];
    // Entirely below the block.
    let low = read_registers(&blocks, 0, 10);
    assert_eq!(low, vec![0u16; 10]);
    // Entirely above the block.
    let high = read_registers(&blocks, 900, 4);
    assert_eq!(high, vec![0u16; 4]);
    // Crossing the block boundary: zeros outside, data inside.
    let cross = read_registers(&blocks, 95, 10);
    assert_eq!(&cross[0..5], &[0u16; 5]);
    let bits = 0.0f32.to_bits();
    assert_eq!(cross[5], (bits >> 16) as u16);
    // At the very top of the address space nothing is mapped.
    let top = read_registers(&blocks, 65535, 3);
    assert_eq!(top, vec![0u16; 3]);
}

#[test]
fn only_read_function_codes_are_served() {
    let d = PlantData::default();
    let blocks = vec![PlantBlock { base: 0, regs: encode_block(&d) }];
    assert!(handle_read(&blocks, 3, 0, 4).is_ok());
    assert!(handle_read(&blocks, 4, 0, 4).is_ok());
    for fc in [1u8, 2, 5, 6, 15, 16, 23] {
        assert_eq!(handle_read(&blocks, fc, 0, 4), Err(EXC_ILLEGAL_FUNCTION));
    }
}

#[test]
fn empty_fleet_serves_zeros() {
    let blocks: Vec<PlantBlock> = Vec::new();
    let words = read_registers(&blocks, 0, 8);
    assert_eq!(words, vec![0u16; 8]);
}
