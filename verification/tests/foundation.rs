use sha2::{Digest, Sha256};
use wiseowl_brain::foundation::{
    FoundationKey, FoundationLoadError, FoundationLoadState, FoundationMemory,
    FoundationTokenizerIdentity,
};
use wiseowl_brain::grounded::FactKind;

const TOKENIZER_ID: u32 = 0x574f_4c31;
const TOKENIZER_VERSION: u32 = 1;

fn identity() -> FoundationTokenizerIdentity {
    FoundationTokenizerIdentity {
        id: TOKENIZER_ID,
        version: TOKENIZER_VERSION,
        fingerprint: [9; 32],
    }
}

struct Rec {
    tag: u16,
    value: Vec<u8>,
    token_offset: u32,
    token_count: u16,
}

struct Tok {
    id: u64,
    frequency: u16,
    flags: u16,
    positions: Vec<u32>,
}

fn records() -> Vec<Rec> {
    let values: [&str; 9] = [
        "Wise Owl",
        "owl",
        "SunlightOS assistant",
        "helper",
        "answers questions",
        "never acts without consent",
        "capabilities gate every action",
        "ask the runtime",
        "three memory layers",
    ];
    values
        .iter()
        .enumerate()
        .map(|(i, v)| Rec {
            tag: (i + 1) as u16,
            value: v.as_bytes().to_vec(),
            token_offset: if i == 0 { 0 } else { 1 },
            token_count: 1,
        })
        .collect()
}

fn tokens() -> Vec<Tok> {
    vec![
        Tok { id: 0x1122_3344_5566_7788, frequency: 2, flags: 1, positions: vec![0, 5] },
        Tok { id: 7, frequency: 1, flags: 0, positions: vec![3] },
    ]
}

fn blob(records: &[Rec], tokens: &[Tok], token_count: u32) -> Vec<u8> {
    let mut rec = Vec::new();
    for r in records {
        rec.extend_from_slice(&r.tag.to_le_bytes());
        rec.extend_from_slice(&(r.value.len() as u16).to_le_bytes());
        rec.extend_from_slice(&r.token_offset.to_le_bytes());
        rec.extend_from_slice(&r.token_count.to_le_bytes());
        rec.extend_from_slice(&r.value);
    }
    let mut tok = Vec::new();
    for t in tokens {
        tok.extend_from_slice(&t.id.to_le_bytes());
        tok.extend_from_slice(&t.frequency.to_le_bytes());
        tok.extend_from_slice(&t.flags.to_le_bytes());
        tok.extend_from_slice(&(t.positions.len() as u16).to_le_bytes());
        for p in &t.positions {
            tok.extend_from_slice(&p.to_le_bytes());
        }
    }
    let mut b = Vec::new();
    b.extend_from_slice(b"WOFM\x01\0\0\0");
    b.extend_from_slice(&1u16.to_le_bytes());
    b.extend_from_slice(&1u16.to_le_bytes());
    b.extend_from_slice(&TOKENIZER_ID.to_le_bytes());
    b.extend_from_slice(&TOKENIZER_VERSION.to_le_bytes());
    b.extend_from_slice(&[9u8; 32]);
    b.extend_from_slice(&(records.len() as u16).to_le_bytes());
    b.extend_from_slice(&token_count.to_le_bytes());
    b.extend_from_slice(&106u32.to_le_bytes());
    b.extend_from_slice(&(rec.len() as u32).to_le_bytes());
    b.extend_from_slice(&(106 + rec.len() as u32).to_le_bytes());
    b.extend_from_slice(&(tok.len() as u32).to_le_bytes());
    b.extend_from_slice(&[0u8; 32]);
    b.extend_from_slice(&rec);
    b.extend_from_slice(&tok);
    seal(&mut b);
    b
}

fn seal(b: &mut Vec<u8>) {
    let mut hashed = Vec::new();
    hashed.extend_from_slice(&b[..74]);
    hashed.extend_from_slice(&b[106..]);
    let hash: [u8; 32] = Sha256::digest(&hashed).into();
    b[74..106].copy_from_slice(&hash);
}

fn good_blob() -> Vec<u8> {
    blob(&records(), &tokens(), 2)
}

#[test]
fn well_formed_foundation_loads() {
    let state = FoundationLoadState::load(&good_blob(), &identity());
    assert!(state.is_ready(), "foundation failed: {:?}", state.error());
    assert_eq!(state.status_label(), "ready");
    assert!(state.record_count() >= 8);
    assert!(state.token_count() > 0);
    let memory = state.memory().unwrap();
    assert_eq!(memory.get(FoundationKey::AssistantName), Some("Wise Owl"));
    assert_eq!(memory.get(FoundationKey::MemoryLayerModel), Some("three memory layers"));
    assert_eq!(memory.schema_version, 1);
    assert_eq!(memory.tokenizer_id, TOKENIZER_ID);
    assert_eq!(memory.records[2].key, FoundationKey::SunlightOsIdentity);
    assert_eq!(memory.tokens[0].token_id, 0x1122_3344_5566_7788);
    assert!(memory.tokens[0].positions_truncated);
    assert_eq!(memory.tokens[0].positions, vec![0, 5]);
    assert!(!memory.tokens[1].positions_truncated);
}

#[test]
fn tampered_blob_fails_integrity_check() {
    let mut tampered = good_blob();
    let last = tampered.len() - 1;
    tampered[last] ^= 0x5A;
    let err = FoundationMemory::decode_and_validate(&tampered, &identity()).unwrap_err();
    assert_eq!(err, FoundationLoadError::IntegrityHashMismatch);
}

#[test]
fn bad_magic_is_rejected() {
    let mut tampered = good_blob();
    tampered[0] = b'X';
    let err = FoundationMemory::decode_and_validate(&tampered, &identity()).unwrap_err();
    assert_eq!(err, FoundationLoadError::BadMagic);
}

#[test]
fn short_blob_is_truncated() {
    let b = good_blob();
    assert_eq!(
        FoundationMemory::decode_and_validate(&b[..105], &identity()).unwrap_err(),
        FoundationLoadError::Truncated
    );
    let state = FoundationLoadState::load(&b[..10], &identity());
    assert!(!state.is_ready());
    assert_eq!(state.status_label(), "truncated");
    assert_eq!(state.record_count(), 0);
    assert_eq!(state.token_count(), 0);
}

#[test]
fn other_tokenizer_is_refused() {
    let b = good_blob();
    let mut wrong_id = identity();
    wrong_id.id = 5;
    assert_eq!(
        FoundationMemory::decode_and_validate(&b, &wrong_id).unwrap_err(),
        FoundationLoadError::TokenizerIdMismatch(TOKENIZER_ID)
    );
    let mut wrong_version = identity();
    wrong_version.version = 2;
    assert_eq!(
        FoundationMemory::decode_and_validate(&b, &wrong_version).unwrap_err(),
        FoundationLoadError::TokenizerVersionMismatch(TOKENIZER_VERSION)
    );
    let mut wrong_fingerprint = identity();
    wrong_fingerprint.fingerprint[3] = 0;
    assert_eq!(
        FoundationMemory::decode_and_validate(&b, &wrong_fingerprint).unwrap_err(),
        FoundationLoadError::TokenizerFingerprintMismatch
    );
}

#[test]
fn unsupported_versions_are_reported() {
    let mut b = good_blob();
    b[8] = 2;
    assert_eq!(
        FoundationMemory::decode_and_validate(&b, &identity()).unwrap_err(),
        FoundationLoadError::UnsupportedFormatVersion(2)
    );
    let mut c = good_blob();
    c[10] = 3;
    assert_eq!(
        FoundationMemory::decode_and_validate(&c, &identity()).unwrap_err(),
        FoundationLoadError::UnsupportedSchemaVersion(3)
    );
}

#[test]
fn layout_faults_are_reported() {
    let mut b = good_blob();
    b.push(0);
    assert_eq!(
        FoundationMemory::decode_and_validate(&b, &identity()).unwrap_err(),
        FoundationLoadError::BadLayout
    );
    let mut c = good_blob();
    c[58] = 107;
    assert_eq!(
        FoundationMemory::decode_and_validate(&c, &identity()).unwrap_err(),
        FoundationLoadError::BadLayout
    );
}

#[test]
fn record_faults_are_reported() {
    let mut recs = records();
    recs[4].tag = 10;
    assert_eq!(
        FoundationMemory::decode_and_validate(&blob(&recs, &tokens(), 2), &identity()).unwrap_err(),
        FoundationLoadError::InvalidKey(10)
    );
    let mut recs = records();
    recs[1].value = vec![0xff, 0xfe];
    assert_eq!(
        FoundationMemory::decode_and_validate(&blob(&recs, &tokens(), 2), &identity()).unwrap_err(),
        FoundationLoadError::InvalidUtf8
    );
    let mut recs = records();
    recs[0].token_offset = 2;
    assert_eq!(
        FoundationMemory::decode_and_validate(&blob(&recs, &tokens(), 2), &identity()).unwrap_err(),
        FoundationLoadError::TokenSliceOutOfBounds
    );
}

#[test]
fn token_count_must_match_area() {
    assert_eq!(
        FoundationMemory::decode_and_validate(&blob(&records(), &tokens(), 3), &identity())
            .unwrap_err(),
        FoundationLoadError::Truncated
    );
    let mut recs = records();
    for r in recs.iter_mut() {
        r.token_offset = 0;
    }
    assert_eq!(
        FoundationMemory::decode_and_validate(&blob(&recs, &tokens(), 1), &identity()).unwrap_err(),
        FoundationLoadError::BadLayout
    );
}

#[test]
fn keys_round_trip_through_tags() {
    for tag in 1u16..=9 {
        let key = FoundationKey::from_tag(tag).unwrap();
        assert_eq!(key.tag(), tag);
    }
    assert_eq!(FoundationKey::from_tag(0), None);
    assert_eq!(FoundationKey::from_tag(10), None);
    assert_eq!(FoundationKey::AssistantName.as_source_key(), "assistant_name");
    assert_eq!(FoundationKey::MemoryLayerModel.as_source_key(), "memory_layer_model");
    assert_eq!(FoundationKey::InternalCodename.fact_kind(), FactKind::AssistantCodename);
    assert_eq!(FoundationLoadError::InvalidUtf8.as_str(), "invalid-utf8");
    assert_eq!(FoundationLoadError::TokenizerIdMismatch(3).as_str(), "tokenizer-id");
}
