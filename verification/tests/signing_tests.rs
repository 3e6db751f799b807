use signalflow_bot::error::BotError;
use signalflow_bot::signing::{Signer, Wallet};

const KEY_ONE: &str = "0x0000000000000000000000000000000000000000000000000000000000000001";

fn signing_message<T>(r: Result<T, BotError>) -> String {
    match r {
        Err(BotError::Signing(m)) => m,
        Err(other) => panic!("unexpected {:?}", other),
        Ok(_) => panic!("expected an error"),
    }
}

#[test]
fn wallet_address_of_key_one() {
    // the well-known address of the private key 1
    let w = Wallet::new(KEY_ONE).ok().unwrap();
    assert_eq!(w.address(), "0x7e5f4552091a69125d5dfcb7b8c2659029395bdf");
    let same = Wallet::new(&KEY_ONE[2..]).ok().unwrap();
    assert_eq!(same.address(), w.address());
}

#[test]
fn wallet_rejects_bad_keys() {
    assert_eq!(signing_message(Wallet::new("0x123")), "Invalid private key hex: Odd number of digits");
    assert!(signing_message(Wallet::new("zz")).starts_with("Invalid private key hex: "));
    assert_eq!(signing_message(Wallet::new(&"11".repeat(31))), "Private key must be 32 bytes, got 31");
    assert_eq!(signing_message(Wallet::new(&"00".repeat(32))), "Invalid private key: signature error");
    // the group order itself is not a valid key
    let order = "FFFFFFFFFFFFFFFFFFFFFFFFFFFFFFFEBAAEDCE6AF48A03BBFD25E8CD0364141";
    assert_eq!(signing_message(Wallet::new(order)), "Invalid private key: signature error");
}

#[test]
fn signatures_are_deterministic_and_well_formed() {
    let w = Wallet::new(KEY_ONE).ok().unwrap();
    let signer = Signer::new();
    let action = r#"{"grouping":"na","orders":[],"type":"order"}"#;
    let a = signer.sign_action(&w, action).unwrap();
    let b = signer.sign_action(&w, action).unwrap();
    assert_eq!(a.r, b.r);
    assert_eq!(a.s, b.s);
    assert_eq!(a.v, b.v);
    assert!(a.r.starts_with("0x") && a.r.len() == 66);
    assert!(a.s.starts_with("0x") && a.s.len() == 66);
    assert!(a.r[2..].chars().all(|c| c.is_ascii_hexdigit() && !c.is_ascii_uppercase()));
    assert!((27..=30).contains(&a.v));
    let other = signer.sign_action(&w, r#"{"type":"cancel"}"#).unwrap();
    assert_ne!(other.r, a.r);
}
