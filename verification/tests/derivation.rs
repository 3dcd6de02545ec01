use escrow::derivation::{escrow_seed_list, signer_seed_list, verify};
use escrow::Address;

const PROGRAM: [u8; 32] = [
    0x0f, 0x1e, 0x6b, 0x14, 0x21, 0xc0, 0x4a, 0x07, 0x04, 0x31, 0x26, 0x5c, 0x19, 0xc5, 0xbb, 0xee,
    0x19, 0x92, 0xba, 0xe8, 0xaf, 0xd1, 0xcd, 0x07, 0x8e, 0xf8, 0xaf, 0x70, 0x47, 0xdc, 0x11, 0xf7,
];

fn program() -> Address {
    Address::new_from_array(PROGRAM)
}

fn maker(n: u8) -> Address {
    let mut bytes = [n; 32];
    bytes[0] = 1;
    bytes[31] = n.wrapping_mul(7);
    Address::new_from_array(bytes)
}

fn derive_or_panic(maker: &Address, seed: u64, program: &Address) -> (Address, u8) {
    match escrow::derivation::derive(maker, seed, program) {
        Some(found) => found,
        None => panic!("no bump derives an identity"),
    }
}

#[test]
fn escrow_seeds_are_tag_maker_and_seed() {
    let m = maker(3);
    let seeds = escrow_seed_list(&m, 7);
    assert_eq!(seeds.len(), 3);
    assert_eq!(seeds[0], b"escrow".to_vec());
    assert_eq!(seeds[1], m.to_bytes().to_vec());
    assert_eq!(seeds[2], vec![7u8, 0, 0, 0, 0, 0, 0, 0]);
}

#[test]
fn signer_seeds_end_with_the_bump() {
    let m = maker(3);
    let seeds = signer_seed_list(&m, 0x0102, 254);
    assert_eq!(seeds.len(), 4);
    assert_eq!(seeds[0], vec![101u8, 115, 99, 114, 111, 119]);
    assert_eq!(seeds[1], m.to_bytes().to_vec());
    assert_eq!(seeds[2], vec![2u8, 1, 0, 0, 0, 0, 0, 0]);
    assert_eq!(seeds[3], vec![254u8]);
}

#[test]
fn derive_agrees_with_the_ledger_library() {
    let program_id = pinocchio::Address::new_from_array(PROGRAM);
    for n in 0..20u8 {
        let m = maker(n);
        let seed = 1_000_003u64.wrapping_mul(n as u64 + 1);
        let (identity, bump) = derive_or_panic(&m, seed, &program());
        let expected = pinocchio::Address::find_program_address(
            &[b"escrow", &m.to_bytes(), &seed.to_le_bytes()],
            &program_id,
        );
        assert_eq!(identity.to_bytes(), expected.0.to_bytes());
        assert_eq!(bump, expected.1);
    }
}

#[test]
fn derive_is_reproducible() {
    let m = maker(9);
    let first = derive_or_panic(&m, 7, &program());
    let second = derive_or_panic(&m, 7, &program());
    assert_eq!(first, second);
}

#[test]
fn derive_does_not_return_its_argument() {
    let m = maker(9);
    let (identity, bump) = derive_or_panic(&m, 7, &program());
    assert_ne!(identity, m);
    assert_ne!(identity, program());
    assert!(bump >= 1);
}

#[test]
fn derive_depends_on_maker_seed_and_program() {
    let base = derive_or_panic(&maker(1), 7, &program());
    assert_ne!(derive_or_panic(&maker(2), 7, &program()).0, base.0);
    assert_ne!(derive_or_panic(&maker(1), 8, &program()).0, base.0);
    assert_ne!(derive_or_panic(&maker(1), 7, &Address::new_from_array([5; 32])).0, base.0);
}

#[test]
fn derived_identity_verifies() {
    for n in 0..20u8 {
        let m = maker(n);
        let seed = u64::MAX - n as u64;
        let (identity, bump) = derive_or_panic(&m, seed, &program());
        assert!(verify(&identity, &m, seed, bump, &program()));
    }
}

#[test]
fn verify_agrees_with_the_ledger_library() {
    let program_id = pinocchio::Address::new_from_array(PROGRAM);
    let m = maker(4);
    let seed = 42u64;
    for bump in 0..=255u8 {
        let created = pinocchio::Address::create_program_address(
            &[b"escrow", &m.to_bytes(), &seed.to_le_bytes(), &[bump]],
            &program_id,
        );
        match created {
            Ok(address) => {
                let identity = Address::new_from_array(address.to_bytes());
                assert!(verify(&identity, &m, seed, bump, &program()));
                assert!(!verify(&m, &m, seed, bump, &program()));
            }
            Err(_) => {
                for candidate in [m, program(), Address::new_from_array([0; 32])] {
                    assert!(!verify(&candidate, &m, seed, bump, &program()));
                }
            }
        }
    }
}

#[test]
fn verify_rejects_any_flipped_bit_of_the_maker() {
    let m = maker(5);
    let (identity, bump) = derive_or_panic(&m, 7, &program());
    for byte in 0..32 {
        for bit in 0..8 {
            let mut bytes = m.to_bytes();
            bytes[byte] ^= 1 << bit;
            let other = Address::new_from_array(bytes);
            assert!(!verify(&identity, &other, 7, bump, &program()));
        }
    }
}

#[test]
fn verify_rejects_any_flipped_bit_of_the_seed() {
    let m = maker(5);
    let (identity, bump) = derive_or_panic(&m, 7, &program());
    for bit in 0..64 {
        assert!(!verify(&identity, &m, 7 ^ (1u64 << bit), bump, &program()));
    }
}

#[test]
fn verify_rejects_any_flipped_bit_of_the_bump() {
    let m = maker(5);
    let (identity, bump) = derive_or_panic(&m, 7, &program());
    for bit in 0..8 {
        assert!(!verify(&identity, &m, 7, bump ^ (1u8 << bit), &program()));
    }
}

#[test]
fn verify_rejects_any_flipped_bit_of_the_candidate() {
    let m = maker(5);
    let (identity, bump) = derive_or_panic(&m, 7, &program());
    for byte in 0..32 {
        for bit in 0..8 {
            let mut bytes = identity.to_bytes();
            bytes[byte] ^= 1 << bit;
            assert!(!verify(&Address::new_from_array(bytes), &m, 7, bump, &program()));
        }
    }
}

#[test]
fn verify_rejects_another_program() {
    let m = maker(5);
    let (identity, bump) = derive_or_panic(&m, 7, &program());
    assert!(!verify(&identity, &m, 7, bump, &Address::new_from_array([9; 32])));
}

#[test]
fn address_same_compares_bytes() {
    let a = Address::new_from_array([3; 32]);
    let mut bytes = [3u8; 32];
    assert!(a.same(&Address::new_from_array(bytes)));
    bytes[31] = 4;
    assert!(!a.same(&Address::new_from_array(bytes)));
    bytes[31] = 3;
    bytes[0] = 2;
    assert!(!a.same(&Address::new_from_array(bytes)));
    assert_eq!(a.to_vec(), vec![3u8; 32]);
    assert_eq!(a.to_bytes(), [3u8; 32]);
}
