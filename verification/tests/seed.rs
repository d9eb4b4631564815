use squiggle::primitives::Address;
use squiggle::seed::generate_seed;

fn hex(text: &str) -> Vec<u8> {
    (0..text.len() / 2).map(|i| u8::from_str_radix(&text[2 * i..2 * i + 2], 16).unwrap()).collect()
}

#[test]
fn seed_is_the_keccak_digest_of_the_three_words() {
    let sender = Address::new([0x11; 20]);
    assert_eq!(
        generate_seed(7, &sender, 42161).to_vec(),
        hex("8df586f7ed1115367ce55331e2425c996ec28d48d79ebe91a7709aa14dd6b95d")
    );
}

#[test]
fn seed_of_all_zero_inputs() {
    let sender = Address::new([0; 20]);
    assert_eq!(
        generate_seed(0, &sender, 0).to_vec(),
        hex("46700b4d40ac5c35af2c22dda2787a91eb567b06c924a8fb8ae9a05b20c08c21")
    );
}

#[test]
fn seed_of_the_largest_block_number() {
    let sender = Address::new([1, 2, 3, 4, 5, 6, 7, 8, 9, 10, 11, 12, 13, 14, 15, 16, 17, 18, 19, 20]);
    assert_eq!(
        generate_seed(u64::MAX, &sender, 1).to_vec(),
        hex("1fed65b047d225fbd481552b2cfd2472a76ab66380c0be20ab7d3d55ed163928")
    );
}

#[test]
fn seed_of_a_real_looking_call() {
    let sender = Address::new(hex("361594F5429D23ECE0A88E4fBE529E1c49D524d8").try_into().unwrap());
    assert_eq!(
        generate_seed(19_000_000, &sender, 421_614).to_vec(),
        hex("cd7029e8115dcc452dc351646e69dee2e0f06325568e4e911a6510e510235068")
    );
}

#[test]
fn seed_is_reproducible() {
    let sender = Address::new([0x11; 20]);
    assert_eq!(generate_seed(7, &sender, 42161), generate_seed(7, &sender, 42161));
}

#[test]
fn seed_depends_on_each_input() {
    let sender = Address::new([0x11; 20]);
    let mut other = [0x11; 20];
    other[0] = 0x12;
    let seed = generate_seed(7, &sender, 42161);
    assert_ne!(seed, generate_seed(8, &sender, 42161));
    assert_ne!(seed, generate_seed(7, &Address::new(other), 42161));
    assert_ne!(seed, generate_seed(7, &sender, 42162));
    assert_ne!(seed, generate_seed(42161, &sender, 7));
}
