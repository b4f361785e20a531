use starstream_sys::assert_tx_signed_by;
use starstream_sys::CodeHash;
use starstream_sys::PrivateKey;
use starstream_sys::TokenStorage;
use starstream_sys::UtxoStatus;

#[test]
fn zero_hash_is_a_fixed_value() {
    assert!(CodeHash::zero() == CodeHash::zero());
}

#[test]
fn key_pair_placeholders() {
    let key = PrivateKey;
    let public = key.public_key();
    let signature = key.sign(b"message");
    // Verification is a placeholder in this version: every check accepts.
    assert!(signature.is_valid(b"message"));
    // The signature check placeholder performs no enforcement either.
    assert_tx_signed_by(public);
}

#[test]
fn statuses_compare_by_variant() {
    assert_eq!(UtxoStatus::Yielded, UtxoStatus::Yielded);
    assert_ne!(UtxoStatus::Yielded, UtxoStatus::Returned);
}

#[test]
fn token_storage_holds_id_and_amount() {
    let storage = TokenStorage { id: 7, amount: 100 };
    assert_eq!(storage.id, 7);
    assert_eq!(storage.amount, 100);
    assert_eq!(storage, TokenStorage { id: 7, amount: 100 });
}
