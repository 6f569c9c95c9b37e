use ed25519_dalek::Signer;
use horizon_dtl::{
    canonical_bytes, verify_signature, AccountId, Amount, Bps, Digest, FeeLedger, FeeSchedule,
    HorizonError, KeyPair, OperatorRegistry, OperatorRole, PublicIdentity, ShareIndex,
    ShareUnits, SignatureBytes,
};

fn framed_blake3(domain: &str, parts: &[&[u8]]) -> [u8; 32] {
    let mut hasher = blake3::Hasher::new();
    hasher.update(domain.as_bytes());
    for part in parts {
        hasher.update(&(part.len() as u64).to_be_bytes());
        hasher.update(part);
    }
    *hasher.finalize().as_bytes()
}

#[test]
fn canonical_numbers_match_serde_json() {
    let value = (7u32, 42u64, u128::MAX, true);
    assert_eq!(
        canonical_bytes(&value).unwrap(),
        serde_json::to_vec(&value).unwrap()
    );
    let small = (0u16, 0u128, false);
    assert_eq!(
        canonical_bytes(&small).unwrap(),
        serde_json::to_vec(&small).unwrap()
    );
}

#[test]
fn canonical_strings_escape_like_serde_json() {
    let value = ("he said \"hi\"\\\n\t\r\u{1}\u{1f} caf\u{e9} \u{1F600}", 3u16);
    assert_eq!(
        canonical_bytes(&value).unwrap(),
        serde_json::to_vec(&value).unwrap()
    );
    let empty = ("", 1u64);
    assert_eq!(
        canonical_bytes(&empty).unwrap(),
        serde_json::to_vec(&empty).unwrap()
    );
}

#[test]
fn identifiers_encode_as_lowercase_hex_strings() {
    let id = AccountId::from_bytes([0xab; 32]);
    let expected = format!("\"{}\"", hex::encode([0xab; 32]));
    assert_eq!(canonical_bytes(&id).unwrap(), expected.into_bytes());
    assert_eq!(canonical_bytes(&Amount(5)).unwrap(), b"5".to_vec());
}

#[test]
fn digest_from_parts_frames_each_part_with_its_length() {
    let digest = Digest::from_parts("horizon-test-v1", &[b"ab", b"c"]);
    assert_eq!(
        digest.bytes(),
        framed_blake3("horizon-test-v1", &[b"ab", b"c"])
    );
    let shifted = Digest::from_parts("horizon-test-v1", &[b"a", b"bc"]);
    assert_ne!(digest, shifted);
}

#[test]
fn public_identity_uses_the_ed25519_key_of_the_seed() {
    let seed = [7u8; 32];
    let identity = KeyPair::from_seed(seed).public_identity();
    let expected = ed25519_dalek::SigningKey::from_bytes(&seed)
        .verifying_key()
        .to_bytes();
    assert_eq!(identity.verifying_key, expected);
    assert_eq!(
        identity.account.bytes(),
        framed_blake3("horizon-account-v1", &[&expected])
    );
    assert!(identity.verify_consistency().is_ok());
}

#[test]
fn signature_matches_ed25519_over_canonical_bytes() {
    let seed = [9u8; 32];
    let key_pair = KeyPair::from_seed(seed);
    let payload = (1u32, 2u64);
    let signature = key_pair.sign("horizon-test-v1", &payload).unwrap();
    let message = canonical_bytes(&("horizon-test-v1", &payload)).unwrap();
    let expected = ed25519_dalek::SigningKey::from_bytes(&seed)
        .sign(&message)
        .to_bytes();
    assert_eq!(signature.bytes(), expected);
}

#[test]
fn signed_payload_verifies_and_tampering_is_rejected() {
    let key_pair = KeyPair::from_seed([3u8; 32]);
    let identity = key_pair.public_identity();
    let payload = (10u32, 20u64);
    let signature = key_pair.sign("horizon-test-v1", &payload).unwrap();

    assert_eq!(
        verify_signature(identity, signature, "horizon-test-v1", &payload),
        Ok(())
    );
    assert_eq!(
        verify_signature(identity, signature, "horizon-test-v1", &(10u32, 21u64)),
        Err(HorizonError::InvalidSignature)
    );
    assert_eq!(
        verify_signature(identity, signature, "horizon-other-v1", &payload),
        Err(HorizonError::InvalidSignature)
    );
    let mut bytes = signature.bytes();
    bytes[0] ^= 1;
    assert_eq!(
        verify_signature(
            identity,
            SignatureBytes::from_bytes(bytes),
            "horizon-test-v1",
            &payload
        ),
        Err(HorizonError::InvalidSignature)
    );
}

#[test]
fn mismatched_identity_is_rejected() {
    let key_pair = KeyPair::from_seed([4u8; 32]);
    let other = KeyPair::from_seed([5u8; 32]).public_identity();
    let identity = PublicIdentity {
        account: other.account,
        verifying_key: key_pair.public_identity().verifying_key,
    };
    let signature = key_pair.sign("horizon-test-v1", &1u64).unwrap();
    assert_eq!(
        identity.verify_consistency(),
        Err(HorizonError::IdentityMismatch(other.account))
    );
    assert_eq!(
        verify_signature(identity, signature, "horizon-test-v1", &1u64),
        Err(HorizonError::IdentityMismatch(other.account))
    );
}

#[test]
fn key_that_is_not_a_curve_point_is_rejected() {
    let mut key = [0u8; 32];
    let mut found = false;
    for first in 0u8..=255 {
        key[0] = first;
        if ed25519_dalek::VerifyingKey::from_bytes(&key).is_err() {
            found = true;
            break;
        }
    }
    assert!(found);
    let identity = PublicIdentity {
        account: AccountId::from_bytes(framed_blake3("horizon-account-v1", &[&key])),
        verifying_key: key,
    };
    let signature = KeyPair::from_seed([6u8; 32])
        .sign("horizon-test-v1", &1u64)
        .unwrap();
    assert_eq!(
        verify_signature(identity, signature, "horizon-test-v1", &1u64),
        Err(HorizonError::InvalidPublicKey)
    );
}

#[test]
fn amount_arithmetic_is_checked() {
    assert_eq!(Amount(7).checked_add(Amount(5)), Ok(Amount(12)));
    assert_eq!(
        Amount(u128::MAX).checked_add(Amount(1)),
        Err(HorizonError::AmountOverflow)
    );
    assert_eq!(Amount(7).checked_sub(Amount(5)), Ok(Amount(2)));
    assert_eq!(
        Amount(5).checked_sub(Amount(7)),
        Err(HorizonError::AmountUnderflow)
    );
    assert_eq!(Amount(7).checked_mul(3), Ok(Amount(21)));
    assert_eq!(
        Amount(u128::MAX).checked_mul(2),
        Err(HorizonError::AmountOverflow)
    );
    assert_eq!(Amount(7).checked_div(2), Ok(Amount(3)));
    assert_eq!(Amount(7).checked_div(0), Err(HorizonError::DivisionByZero));
    assert_eq!(
        Amount(10_000).checked_mul_bps(Bps::new(250).unwrap()),
        Ok(Amount(250))
    );
    assert_eq!(Bps::new(10_001), Err(HorizonError::BpsOutOfRange(10_001)));
    assert_eq!(ShareIndex::new(0), Err(HorizonError::DivisionByZero));
}

#[test]
fn share_conversion_rounds_down_and_is_exact_at_par() {
    let index = ShareIndex::new(1_200_000_000_000).unwrap();
    let units = index.units_from_amount(Amount(1_000)).unwrap();
    assert_eq!(units, ShareUnits(833));
    let back = index.amount_from_units(units).unwrap();
    assert_eq!(back, Amount(999));
    assert!(back.units() <= 1_000);

    let par = ShareIndex::one();
    assert_eq!(
        par.units_from_amount(Amount(12_345)).unwrap(),
        ShareUnits(12_345)
    );
    assert_eq!(
        par.amount_from_units(ShareUnits(12_345)).unwrap(),
        Amount(12_345)
    );
}

#[test]
fn fees_stay_within_the_notional() {
    let treasury = KeyPair::from_seed([8u8; 32]).public_identity().account;
    let schedule = FeeSchedule::new(treasury, Bps::new(500).unwrap(), Bps::new(250).unwrap()).unwrap();
    let mut fees = FeeLedger::default();
    assert_eq!(fees.protocol_fee(Amount(5_000_000)), Ok(Amount(0)));
    fees.configure(schedule);
    let protocol = fees.protocol_fee(Amount(5_000_000)).unwrap();
    let reserve = fees.reserve_fee(Amount(5_000_000)).unwrap();
    assert_eq!(protocol, Amount(250_000));
    assert_eq!(reserve, Amount(125_000));
    assert!(protocol.units() + reserve.units() <= 5_000_000);
    assert_eq!(
        FeeSchedule::new(treasury, Bps::new(9_000).unwrap(), Bps::new(2_000).unwrap()),
        Err(HorizonError::Policy("fee schedule exceeds range".to_owned()))
    );
}

#[test]
fn granted_role_passes_its_check() {
    let account = KeyPair::from_seed([12u8; 32]).public_identity().account;
    let mut registry = OperatorRegistry::default();
    assert_eq!(
        registry.require_role(account, OperatorRole::Relayer),
        Err(HorizonError::Policy("operator role is not assigned".to_owned()))
    );
    registry.grant_role(account, OperatorRole::Oracle);
    registry.grant_role(account, OperatorRole::Relayer);
    registry.grant_role(account, OperatorRole::Relayer);
    assert_eq!(registry.require_role(account, OperatorRole::Relayer), Ok(()));
    assert_eq!(registry.require_role(account, OperatorRole::Oracle), Ok(()));
    assert!(!registry.has_role(account, OperatorRole::Issuer));
    assert_eq!(registry.operator_count(), 1);
}

#[test]
fn identifiers_convert_from_digests() {
    let digest = Digest::from_parts("horizon-test-v1", &[b"id"]);
    assert_eq!(AccountId::from(digest).bytes(), digest.bytes());
    assert_eq!(horizon_dtl::TxId::from(digest).bytes(), digest.bytes());
    assert_eq!(horizon_dtl::NoteId::from(digest).bytes(), digest.bytes());
}

#[test]
fn journal_operations_encode_with_their_type_tag() {
    let vault_id = horizon_dtl::VaultId::from_bytes([1u8; 32]);
    let owner = AccountId::from_bytes([2u8; 32]);
    let op = horizon_dtl::JournalOp::VaultDeposit { vault_id, owner, amount: Amount(5) };
    let expected = format!(
        "{{\"type\":\"vault_deposit\",\"vault_id\":\"{}\",\"owner\":\"{}\",\"amount\":5}}",
        hex::encode([1u8; 32]),
        hex::encode([2u8; 32])
    );
    assert_eq!(canonical_bytes(&op).unwrap(), expected.clone().into_bytes());

    let tx_id = horizon_dtl::TxId::from_bytes([3u8; 32]);
    let state_digest = Digest::from_bytes([4u8; 32]);
    let entry = horizon_dtl::JournalEntry { sequence: 7, tx_id, op, state_digest };
    let expected_entry = format!(
        "{{\"sequence\":7,\"tx_id\":\"{}\",\"op\":{},\"state_digest\":\"{}\"}}",
        hex::encode([3u8; 32]),
        expected,
        hex::encode([4u8; 32])
    );
    assert_eq!(canonical_bytes(&entry).unwrap(), expected_entry.into_bytes());
}

#[test]
fn route_resolution_prefers_the_smallest_identifier() {
    let source = horizon_dtl::VaultId::from_bytes([5u8; 32]);
    let payout = horizon_dtl::VaultId::from_bytes([6u8; 32]);
    let asset = horizon_dtl::AssetId::from_bytes([7u8; 32]);
    let make = |label: &'static [u8]| {
        horizon_dtl::SettlementRoute::new(
            source,
            payout,
            asset,
            Amount(100),
            Amount(1_000),
            Bps::new(100).unwrap(),
            2,
            Digest::from_parts("horizon-route-salt-v1", &[label]),
        )
        .unwrap()
    };
    let first = make(b"first");
    let second = make(b"second");
    let expected = if first.route_id.bytes() < second.route_id.bytes() { first } else { second };
    let mut book = horizon_dtl::RouteBook::default();
    book.register_route(second).unwrap();
    book.register_route(first).unwrap();
    assert_eq!(
        book.register_route(first),
        Err(HorizonError::Policy("route already exists".to_owned()))
    );
    let resolved = book.resolve_route(source, payout, asset, Amount(500), Amount(5)).unwrap();
    assert_eq!(resolved, expected);
    assert_eq!(
        book.resolve_route(source, payout, asset, Amount(5_000), Amount(5)),
        Err(HorizonError::Policy("settlement route not available".to_owned()))
    );
}
