use keiko::accounts::{get_serialized_accounts, parse_seed, Account, SerializedAccount};

#[test]
fn a_long_seed_is_truncated_to_32_bytes() {
    let seed = "0123456789abcdef0123456789abcdefEXTRA";
    let r = parse_seed(seed);
    assert_eq!(&r[..], &seed.as_bytes()[..32]);
}

#[test]
fn a_short_seed_is_zero_padded() {
    let r = parse_seed("dojo");
    assert_eq!(&r[..4], b"dojo");
    assert!(r[4..].iter().all(|b| *b == 0));
}

#[test]
fn an_empty_seed_is_all_zeroes() {
    let r = parse_seed("");
    assert_eq!(r, [0u8; 32]);
}

#[test]
fn serializing_an_account_keeps_every_field() {
    let a = Account {
        public_key: String::from("0x1"),
        private_key: String::from("0x2"),
        address: String::from("0x3"),
        class_hash: String::from("0x4"),
    };
    let s = SerializedAccount::from(&a);
    assert_eq!(s.public_key, "0x1");
    assert_eq!(s.private_key, "0x2");
    assert_eq!(s.address, "0x3");
    assert_eq!(s.class_hash, "0x4");
}

#[test]
fn accounts_are_serialized_in_order() {
    let accounts = vec![
        Account {
            public_key: String::from("pk0"),
            private_key: String::from("sk0"),
            address: String::from("ad0"),
            class_hash: String::from("ch0"),
        },
        Account {
            public_key: String::from("pk1"),
            private_key: String::from("sk1"),
            address: String::from("ad1"),
            class_hash: String::from("ch1"),
        },
    ];
    let out = get_serialized_accounts(&accounts);
    assert_eq!(out.len(), 2);
    assert_eq!(out[0].address, "ad0");
    assert_eq!(out[1].address, "ad1");
    assert_eq!(out[1].class_hash, "ch1");
}
