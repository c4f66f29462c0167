use aes_block::{inv_s_box, s_box, xtime, AESBlock, AesError, DecryptedState, EncryptedState};

fn from_hex(s: &str) -> Vec<u8> {
    (0..s.len() / 2)
        .map(|i| u8::from_str_radix(&s[2 * i..2 * i + 2], 16).unwrap())
        .collect()
}

// The published vectors list a block column by column; this library reads
// it row by row, so they are transposed on the way in and out.
fn transpose(b: &[u8]) -> Vec<u8> {
    (0..16).map(|i| b[4 * (i % 4) + i / 4]).collect()
}

fn schedule(n: usize, seed: u8) -> Vec<Vec<u8>> {
    (0..n)
        .map(|r| (0..16).map(|i| seed.wrapping_mul(31).wrapping_add((r * 17 + i * 7) as u8)).collect())
        .collect()
}

fn aes128_schedule() -> Vec<Vec<u8>> {
    [
        "000102030405060708090a0b0c0d0e0f",
        "d6aa74fdd2af72fadaa678f1d6ab76fe",
        "b692cf0b643dbdf1be9bc5006830b3fe",
        "b6ff744ed2c2c9bf6c590cbf0469bf41",
        "47f7f7bc95353e03f96c32bcfd058dfd",
        "3caaa3e8a99f9deb50f3af57adf622aa",
        "5e390f7df7a69296a7553dc10aa31f6b",
        "14f9701ae35fe28c440adf4d4ea9c026",
        "47438735a41c65b9e016baf4aebf7ad2",
        "549932d1f08557681093ed9cbe2c974e",
        "13111d7fe3944a17f307a78b4d2b30c5",
    ]
    .iter()
    .map(|k| transpose(&from_hex(k)))
    .collect()
}

#[test]
fn known_answer_aes128() {
    let plain = transpose(&from_hex("00112233445566778899aabbccddeeff"));
    let block = AESBlock::<DecryptedState>::new(plain.clone()).unwrap();
    let cipher = block.encrypt(&aes128_schedule(), &s_box()).unwrap();
    assert_eq!(transpose(cipher.grid()), from_hex("69c4e0d86a7b0430d8cdb78070b4c55a"));
    let back = cipher.decrypt(&aes128_schedule(), &inv_s_box()).unwrap();
    assert_eq!(back.grid(), &plain);
}

#[test]
fn known_answer_decrypt_aes128() {
    let cipher = transpose(&from_hex("69c4e0d86a7b0430d8cdb78070b4c55a"));
    let block = AESBlock::<EncryptedState>::new(cipher).unwrap();
    let plain = block.decrypt(&aes128_schedule(), &inv_s_box()).unwrap();
    assert_eq!(transpose(plain.grid()), from_hex("00112233445566778899aabbccddeeff"));
}

#[test]
fn round_trip_all_key_sizes() {
    for n in [11usize, 13, 15] {
        for seed in 0..8u8 {
            let plain: Vec<u8> = (0..16).map(|i| seed.wrapping_mul(13) ^ (i * 29) as u8).collect();
            let keys = schedule(n, seed);
            let block = AESBlock::<DecryptedState>::new(plain.clone()).unwrap();
            let cipher = block.encrypt(&keys, &s_box()).unwrap();
            assert_ne!(cipher.grid(), &plain);
            let back = cipher.decrypt(&keys, &inv_s_box()).unwrap();
            assert_eq!(back.grid(), &plain);
        }
    }
}

#[test]
fn inverse_shift_grid_undoes_shift_grid() {
    let block = AESBlock::<DecryptedState>::new(vec![0; 16]).unwrap();
    let grid: Vec<u8> = (0..16).map(|i| i * 11 + 3).collect();
    let shifted = block.shift_grid(&grid);
    assert_eq!(shifted, vec![3, 14, 25, 36, 58, 69, 80, 47, 113, 124, 91, 102, 168, 135, 146, 157]);
    assert_eq!(block.inv_shift_grid(&shifted), grid);
}

#[test]
fn inverse_mix_columns_undoes_mix_columns() {
    let block = AESBlock::<DecryptedState>::new(vec![0; 16]).unwrap();
    let grid: Vec<u8> = vec![219, 242, 1, 198, 19, 10, 1, 198, 83, 34, 1, 198, 69, 92, 1, 198];
    let mixed = block.mix_columns(&grid);
    assert_eq!(block.inv_mix_columns(&mixed), grid);
    let other: Vec<u8> = (0..16).map(|i| (i * 37 + 5) as u8).collect();
    assert_eq!(block.inv_mix_columns(&block.mix_columns(&other)), other);
}

#[test]
fn inverse_mix_column_example() {
    let block = AESBlock::<DecryptedState>::new(vec![0; 16]).unwrap();
    let data: Vec<&u8> = vec![&142, &77, &161, &188];
    assert_eq!(block.inv_mix_column(&data), vec![219, 19, 83, 69]);
}

#[test]
fn add_roundkey_twice_is_identity() {
    let block = AESBlock::<DecryptedState>::new(vec![0; 16]).unwrap();
    let grid: Vec<u8> = (0..16).map(|i| i * 16 + 1).collect();
    let key: Vec<u8> = vec![0, 2, 4, 8, 12, 1, 3, 5, 7, 9, 11, 13, 15, 2, 3, 4];
    let once = block.add_roundkey(&grid, &key);
    assert_ne!(once, grid);
    assert_eq!(block.add_roundkey(&once, &key), grid);
}

#[test]
fn sbox_tables_are_inverse() {
    let forward = s_box();
    let inverse = inv_s_box();
    assert_eq!(forward.len(), 256);
    assert_eq!(inverse.len(), 256);
    for x in 0..256usize {
        assert_eq!(inverse[forward[x] as usize] as usize, x);
        assert_eq!(forward[inverse[x] as usize] as usize, x);
    }
    assert_eq!(forward[0x00], 0x63);
    assert_eq!(forward[0x53], 0xed);
    assert_eq!(inverse[0x63], 0x00);
}

#[test]
fn sub_bytes_uses_the_table() {
    let block = AESBlock::<DecryptedState>::new(vec![0; 16]).unwrap();
    let grid: Vec<u8> = (0..16).collect();
    let subbed = block.sub_bytes(&grid, &s_box());
    assert_eq!(subbed, vec![0x63, 0x7c, 0x77, 0x7b, 0xf2, 0x6b, 0x6f, 0xc5, 0x30, 0x01, 0x67, 0x2b, 0xfe, 0xd7, 0xab, 0x76]);
    assert_eq!(block.sub_bytes(&subbed, &inv_s_box()), grid);
}

#[test]
fn xtime_values() {
    assert_eq!(xtime(0x57), 0xae);
    assert_eq!(xtime(0xae), 0x47);
    assert_eq!(xtime(0x80), 0x1b);
    assert_eq!(xtime(0x00), 0x00);
    assert_eq!(xtime(0xff), 0xe5);
}

#[test]
fn shift_row_edges() {
    let block = AESBlock::<DecryptedState>::new(vec![0; 16]).unwrap();
    let empty: Vec<u8> = vec![];
    assert_eq!(block.shift_row(&empty, &0), empty);
    assert_eq!(block.shift_row(&[1, 2, 3, 4], &4), vec![1, 2, 3, 4]);
    assert_eq!(block.shift_row(&[9, 8, 7, 6, 5], &2), vec![7, 6, 5, 9, 8]);
}

#[test]
fn new_rejects_wrong_lengths() {
    assert_eq!(AESBlock::<DecryptedState>::new(vec![0; 15]).err(), Some(AesError::InvalidLength));
    assert_eq!(AESBlock::<DecryptedState>::new(vec![]).err(), Some(AesError::InvalidLength));
    assert_eq!(AESBlock::<EncryptedState>::new(vec![0; 17]).err(), Some(AesError::InvalidLength));
    let block = AESBlock::<EncryptedState>::new((0..16).collect()).unwrap();
    assert_eq!(block.grid(), &(0..16).collect::<Vec<u8>>());
}

#[test]
fn encrypt_rejects_bad_schedule_and_table() {
    let block = AESBlock::<DecryptedState>::new(vec![7; 16]).unwrap();
    for n in [0usize, 1, 10, 12, 14, 16] {
        assert_eq!(block.encrypt(&schedule(n, 1), &s_box()).err(), Some(AesError::InvalidKeySchedule));
    }
    let mut short_key = schedule(13, 2);
    short_key[5].pop();
    assert_eq!(block.encrypt(&short_key, &s_box()).err(), Some(AesError::InvalidLength));
    let short_table = s_box()[..255].to_vec();
    assert_eq!(block.encrypt(&schedule(11, 3), &short_table).err(), Some(AesError::InvalidTable));
    let mut long_table = s_box();
    long_table.push(0);
    assert_eq!(block.encrypt(&schedule(15, 3), &long_table).err(), Some(AesError::InvalidTable));
    // The schedule is checked before the table.
    assert_eq!(block.encrypt(&schedule(12, 3), &short_table).err(), Some(AesError::InvalidKeySchedule));
}

#[test]
fn decrypt_rejects_bad_schedule_and_table() {
    let block = AESBlock::<EncryptedState>::new(vec![7; 16]).unwrap();
    assert_eq!(block.decrypt(&schedule(9, 1), &inv_s_box()).err(), Some(AesError::InvalidKeySchedule));
    let mut long_key = schedule(11, 2);
    long_key[0].push(1);
    assert_eq!(block.decrypt(&long_key, &inv_s_box()).err(), Some(AesError::InvalidLength));
    assert_eq!(block.decrypt(&schedule(13, 3), &[0u8; 16]).err(), Some(AesError::InvalidTable));
}
