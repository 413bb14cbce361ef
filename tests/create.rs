use eth_game::{create_address, Address};

fn hex_bytes(s: &str) -> Vec<u8> {
    (0..s.len()).step_by(2).map(|i| u8::from_str_radix(&s[i..i + 2], 16).unwrap()).collect()
}

#[test]
fn create_address_zero_nonce() {
    let a = create_address(&Address::zero(), 0);
    assert_eq!(a.bytes.to_vec(), hex_bytes("bd770416a3345f91e4b34576cb804a576fa48eb1"));
}

#[test]
fn create_address_nonce_one() {
    let a = create_address(&Address::zero(), 1);
    assert_eq!(a.bytes.to_vec(), hex_bytes("5a443704dd4b594b382c22a083e2bd3090a6fef3"));
}

#[test]
fn create_address_multi_byte_nonce() {
    let mut bytes = [0u8; 20];
    for (i, b) in bytes.iter_mut().enumerate() {
        *b = (i + 1) as u8;
    }
    let a = create_address(&Address { bytes }, 256);
    assert_eq!(a.bytes.to_vec(), hex_bytes("f56c96ddf394e8368bb062d481677b00dac1f4da"));
}

#[test]
fn addresses_compare_by_bytes() {
    let mut bytes = [0u8; 20];
    bytes[19] = 1;
    assert!(Address { bytes } != Address::zero());
    assert!(Address::zero() == Address { bytes: [0u8; 20] });
}
