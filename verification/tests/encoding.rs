use sha2::{Digest, Sha256};
use zkp_demo::commitment::commit;
use zkp_demo::encoding::{bytes_equal, commitment_input, push_be_bytes};

#[test]
fn input_is_value_then_salt_big_endian() {
    assert_eq!(commitment_input(3, 42), vec![0u8, 0, 0, 0, 0, 0, 0, 3, 0, 0, 0, 0, 0, 0, 0, 42]);
    assert_eq!(
        commitment_input(0x0102_0304_0506_0708, 0x090a_0b0c_0d0e_0f10),
        vec![1u8, 2, 3, 4, 5, 6, 7, 8, 9, 10, 11, 12, 13, 14, 15, 16]
    );
    assert_eq!(commitment_input(0, 0), vec![0u8; 16]);
    assert_eq!(commitment_input(u64::MAX, u64::MAX), vec![0xffu8; 16]);
    assert_eq!(
        commitment_input(u64::MAX, 0),
        vec![0xffu8, 0xff, 0xff, 0xff, 0xff, 0xff, 0xff, 0xff, 0, 0, 0, 0, 0, 0, 0, 0]
    );
}

#[test]
fn input_agrees_with_the_standard_encoding() {
    for (value, salt) in [(3u64, 42u64), (0x8000_0000_0000_0000, 1), (256, 65_536), (u64::MAX - 1, 255)] {
        let mut expected = value.to_be_bytes().to_vec();
        expected.extend_from_slice(&salt.to_be_bytes());
        assert_eq!(commitment_input(value, salt), expected);
    }
}

#[test]
fn push_appends_eight_bytes_and_keeps_what_was_there() {
    let mut buf: Vec<u8> = vec![0xaa, 0xbb];
    push_be_bytes(&mut buf, 0x0102_0304_0506_0708);
    assert_eq!(buf, vec![0xaau8, 0xbb, 1, 2, 3, 4, 5, 6, 7, 8]);
    push_be_bytes(&mut buf, 0);
    assert_eq!(buf.len(), 18);
    assert_eq!(&buf[10..], &[0u8; 8][..]);
}

#[test]
fn bytes_equal_compares_length_and_content() {
    assert!(bytes_equal(&[], &[]));
    assert!(bytes_equal(&[1, 2, 3], &[1, 2, 3]));
    assert!(!bytes_equal(&[1, 2, 3], &[1, 2, 4]));
    assert!(!bytes_equal(&[9, 2, 3], &[1, 2, 3]));
    assert!(!bytes_equal(&[1, 2, 3], &[1, 2]));
    assert!(!bytes_equal(&[1, 2], &[1, 2, 3]));
    assert!(!bytes_equal(&[], &[0]));
}

#[test]
fn commit_gives_the_known_digests() {
    assert_eq!(
        commit(3, 42),
        vec![
            0x61u8, 0x1e, 0x56, 0x59, 0x7c, 0x1e, 0x6a, 0xb6, 0x38, 0x87, 0x0a, 0x99, 0xc4, 0xcc,
            0xbc, 0xbc, 0x85, 0xf1, 0x20, 0xca, 0xb1, 0xc3, 0x7a, 0x1f, 0x31, 0x51, 0x94, 0x24,
            0xef, 0x80, 0x2d, 0x15
        ]
    );
    assert_eq!(
        commit(0, 0),
        vec![
            0x37u8, 0x47, 0x08, 0xff, 0xf7, 0x71, 0x9d, 0xd5, 0x97, 0x9e, 0xc8, 0x75, 0xd5, 0x6c,
            0xd2, 0x28, 0x6f, 0x6d, 0x3c, 0xf7, 0xec, 0x31, 0x7a, 0x3b, 0x25, 0x63, 0x2a, 0xab,
            0x28, 0xec, 0x37, 0xbb
        ]
    );
    assert_eq!(
        commit(u64::MAX, u64::MAX),
        vec![
            0x5au8, 0xc6, 0xa5, 0x94, 0x5f, 0x16, 0x50, 0x09, 0x11, 0x21, 0x91, 0x29, 0x98, 0x4b,
            0xa8, 0xb3, 0x87, 0xa0, 0x6f, 0x24, 0xfe, 0x38, 0x3c, 0xe4, 0xe8, 0x1a, 0x73, 0x29,
            0x40, 0x65, 0x46, 0x1b
        ]
    );
}

#[test]
fn commit_is_not_its_own_input() {
    let input = commitment_input(3, 42);
    let digest = commit(3, 42);
    assert_eq!(digest.len(), 32);
    assert_ne!(digest, input);
    assert_ne!(digest[..16], input[..]);
}

#[test]
fn commit_agrees_with_incremental_hashing() {
    for (value, salt) in [(3u64, 42u64), (0, 0), (u64::MAX, 1), (0x0123_4567_89ab_cdef, 0xfedc_ba98_7654_3210)] {
        let mut hasher = Sha256::new();
        hasher.update(value.to_be_bytes());
        hasher.update(salt.to_be_bytes());
        assert_eq!(commit(value, salt), hasher.finalize().to_vec());
    }
}
