use gw2_location_log::bytes::{read_u16_le, read_u32_le};
use gw2_location_log::context::{
    GuildwarsContext, BLOB_LEN, COMPASS_ROTATION_OFFSET, CONTEXT_LEN, MAP_CENTER_X_OFFSET,
    MAP_CENTER_Y_OFFSET, MAP_ID_OFFSET, MAP_SCALE_OFFSET, MOUNT_INDEX_OFFSET, PLAYER_X_OFFSET,
    PLAYER_Y_OFFSET, SERVER_ADDRESS_LEN,
};

fn put(region: &mut [u8; 256], offset: usize, bytes: &[u8]) {
    for (i, b) in bytes.iter().enumerate() {
        region[offset + i] = *b;
    }
}

fn sample_blob() -> [u8; 256] {
    let mut region = [0u8; 256];
    for i in 0..28 {
        region[i] = 0xA0 + i as u8;
    }
    put(&mut region, 28, &1206u32.to_le_bytes());
    put(&mut region, 32, &5u32.to_le_bytes());
    put(&mut region, 36, &0x0100_0001u32.to_le_bytes());
    put(&mut region, 40, &7u32.to_le_bytes());
    put(&mut region, 44, &123_456u32.to_le_bytes());
    put(&mut region, 48, &0b100_1011u32.to_le_bytes());
    put(&mut region, 52, &362u16.to_le_bytes());
    put(&mut region, 54, &170u16.to_le_bytes());
    put(&mut region, 56, &(-1.25f32).to_le_bytes());
    put(&mut region, 60, &10240.5f32.to_le_bytes());
    put(&mut region, 64, &(-3072.75f32).to_le_bytes());
    put(&mut region, 68, &10000.0f32.to_le_bytes());
    put(&mut region, 72, &(-3000.0f32).to_le_bytes());
    put(&mut region, 76, &1.5f32.to_le_bytes());
    put(&mut region, 80, &4242u32.to_le_bytes());
    region[84] = 3;
    region
}

#[test]
fn little_endian_u16_is_low_byte_first() {
    let bytes = [0x34u8, 0x12, 0xFF];
    assert_eq!(read_u16_le(&bytes, 0), 0x1234);
    assert_eq!(read_u16_le(&bytes, 1), 0xFF12);
}

#[test]
fn little_endian_u32_is_low_byte_first() {
    let bytes = [0x78u8, 0x56, 0x34, 0x12, 0xFF];
    assert_eq!(read_u32_le(&bytes, 0), 0x1234_5678);
    assert_eq!(read_u32_le(&bytes, 1), 0xFF12_3456);
}

#[test]
fn little_endian_extremes() {
    assert_eq!(read_u32_le(&[0xFF, 0xFF, 0xFF, 0xFF], 0), u32::MAX);
    assert_eq!(read_u32_le(&[0, 0, 0, 0], 0), 0);
    assert_eq!(read_u16_le(&[0xFF, 0xFF], 0), u16::MAX);
    assert_eq!(read_u32_le(&[0, 0, 0, 1], 0), 0x0100_0000);
}

#[test]
fn layout_constants_follow_natural_alignment() {
    assert_eq!(CONTEXT_LEN, 256);
    assert_eq!(SERVER_ADDRESS_LEN, 28);
    assert_eq!(MAP_ID_OFFSET, 28);
    assert_eq!(COMPASS_ROTATION_OFFSET, 56);
    assert_eq!(PLAYER_X_OFFSET, 60);
    assert_eq!(PLAYER_Y_OFFSET, 64);
    assert_eq!(MAP_CENTER_X_OFFSET, 68);
    assert_eq!(MAP_CENTER_Y_OFFSET, 72);
    assert_eq!(MAP_SCALE_OFFSET, 76);
    assert_eq!(MOUNT_INDEX_OFFSET, 84);
    assert_eq!(BLOB_LEN, 88);
}

#[test]
fn decode_reads_every_field_at_its_offset() {
    let region = sample_blob();
    let context = GuildwarsContext::decode(&region);
    let mut address = [0u8; 28];
    address.copy_from_slice(&region[..28]);
    assert_eq!(context.server_address, address);
    assert_eq!(context.map_id, 1206);
    assert_eq!(context.map_type, 5);
    assert_eq!(context.shard_id, 0x0100_0001);
    assert_eq!(context.instance, 7);
    assert_eq!(context.build_id, 123_456);
    assert_eq!(context.ui_state, 0b100_1011);
    assert_eq!(context.compass_width, 362);
    assert_eq!(context.compass_height, 170);
    assert_eq!(f32::from_bits(context.compass_rotation), -1.25);
    assert_eq!(f32::from_bits(context.player_x), 10240.5);
    assert_eq!(f32::from_bits(context.player_y), -3072.75);
    assert_eq!(f32::from_bits(context.map_center_x), 10000.0);
    assert_eq!(f32::from_bits(context.map_center_y), -3000.0);
    assert_eq!(f32::from_bits(context.map_scale), 1.5);
    assert_eq!(context.process_id, 4242);
    assert_eq!(context.mount_index, 3);
}

#[test]
fn decode_of_zeroed_region_is_all_zero() {
    let context = GuildwarsContext::decode(&[0u8; 256]);
    assert_eq!(context.server_address, [0u8; 28]);
    assert_eq!(context.map_id, 0);
    assert_eq!(context.compass_width, 0);
    assert_eq!(context.player_x, 0);
    assert_eq!(f32::from_bits(context.player_x), 0.0);
    assert_eq!(context.mount_index, 0);
}

#[test]
fn decode_ignores_padding_and_the_rest_of_the_region() {
    let plain = sample_blob();
    let mut noisy = plain;
    for i in 85..256 {
        noisy[i] = 0xEE;
    }
    let a = GuildwarsContext::decode(&plain);
    let b = GuildwarsContext::decode(&noisy);
    assert_eq!(a.server_address, b.server_address);
    assert_eq!(a.map_id, b.map_id);
    assert_eq!(a.process_id, b.process_id);
    assert_eq!(a.map_scale, b.map_scale);
    assert_eq!(a.mount_index, b.mount_index);
    assert_eq!(b.mount_index, 3);
}

#[test]
fn decode_keeps_bit_patterns_that_are_not_numbers() {
    let mut region = [0u8; 256];
    put(&mut region, 60, &0x7FC0_1234u32.to_le_bytes());
    put(&mut region, 64, &0xFF80_0000u32.to_le_bytes());
    let context = GuildwarsContext::decode(&region);
    assert_eq!(context.player_x, 0x7FC0_1234);
    assert!(f32::from_bits(context.player_x).is_nan());
    assert_eq!(f32::from_bits(context.player_y), f32::NEG_INFINITY);
}
