//! The foundation memory: a sealed, integrity-checked blob of the assistant's
//! core facts and their token postings, decoded and validated byte by byte.
use vstd::prelude::*;
use vstd::utf8::{decode_utf8, encode_utf8, encode_utf8_decode_utf8, valid_utf8};

use crate::digest::{sha256, spec_sha256};
use crate::grounded::FactKind;

verus! {

pub const FOUNDATION_FORMAT_VERSION: u16 = 1;

pub const FOUNDATION_SCHEMA_VERSION: u16 = 1;

/// Bytes of the fixed header.
pub const FOUNDATION_HEADER_LEN: usize = 106;

/// Where the integrity hash sits in the header.
pub const INTEGRITY_HASH_OFFSET: usize = 74;

/// `WOFM`, format 1, three zero bytes.
pub const FOUNDATION_MAGIC: [u8; 8] = [87u8, 79u8, 70u8, 77u8, 1u8, 0u8, 0u8, 0u8];

/// The keys of the foundation facts.
#[derive(Debug, Clone, Copy, PartialEq, Eq, Structural)]
pub enum FoundationKey {
    AssistantName,
    InternalCodename,
    SunlightOsIdentity,
    GeneralRole,
    HighLevelCapabilities,
    SafetyPrinciples,
    CapabilitySecurityModel,
    RuntimeInfoGuidance,
    MemoryLayerModel,
}

impl FoundationKey {
    /// The wire tag of a key.
    pub open spec fn spec_tag(self) -> u16 {
        match self {
            FoundationKey::AssistantName => 1,
            FoundationKey::InternalCodename => 2,
            FoundationKey::SunlightOsIdentity => 3,
            FoundationKey::GeneralRole => 4,
            FoundationKey::HighLevelCapabilities => 5,
            FoundationKey::SafetyPrinciples => 6,
            FoundationKey::CapabilitySecurityModel => 7,
            FoundationKey::RuntimeInfoGuidance => 8,
            FoundationKey::MemoryLayerModel => 9,
        }
    }

    pub open spec fn spec_from_tag(tag: u16) -> Option<FoundationKey> {
        if tag == 1 {
            Some(FoundationKey::AssistantName)
        } else if tag == 2 {
            Some(FoundationKey::InternalCodename)
        } else if tag == 3 {
            Some(FoundationKey::SunlightOsIdentity)
        } else if tag == 4 {
            Some(FoundationKey::GeneralRole)
        } else if tag == 5 {
            Some(FoundationKey::HighLevelCapabilities)
        } else if tag == 6 {
            Some(FoundationKey::SafetyPrinciples)
        } else if tag == 7 {
            Some(FoundationKey::CapabilitySecurityModel)
        } else if tag == 8 {
            Some(FoundationKey::RuntimeInfoGuidance)
        } else if tag == 9 {
            Some(FoundationKey::MemoryLayerModel)
        } else {
            None
        }
    }

    pub open spec fn spec_source_key(self) -> Seq<char> {
        match self {
            FoundationKey::AssistantName => "assistant_name"@,
            FoundationKey::InternalCodename => "internal_codename"@,
            FoundationKey::SunlightOsIdentity => "sunlightos_identity"@,
            FoundationKey::GeneralRole => "general_role"@,
            FoundationKey::HighLevelCapabilities => "high_level_capabilities"@,
            FoundationKey::SafetyPrinciples => "safety_principles"@,
            FoundationKey::CapabilitySecurityModel => "capability_security_model"@,
            FoundationKey::RuntimeInfoGuidance => "runtime_info_guidance"@,
            FoundationKey::MemoryLayerModel => "memory_layer_model"@,
        }
    }

    pub open spec fn spec_fact_kind(self) -> FactKind {
        match self {
            FoundationKey::AssistantName => FactKind::AssistantName,
            FoundationKey::InternalCodename => FactKind::AssistantCodename,
            FoundationKey::SunlightOsIdentity => FactKind::SunlightIdentity,
            FoundationKey::GeneralRole => FactKind::FoundationRole,
            FoundationKey::HighLevelCapabilities => FactKind::FoundationCapabilities,
            FoundationKey::SafetyPrinciples => FactKind::FoundationSafety,
            FoundationKey::CapabilitySecurityModel => FactKind::FoundationSecurityModel,
            FoundationKey::RuntimeInfoGuidance => FactKind::FoundationRuntimeInfo,
            FoundationKey::MemoryLayerModel => FactKind::FoundationMemoryModel,
        }
    }

    pub fn tag(self) -> (t: u16)
        ensures
            t == self.spec_tag(),
    {
        match self {
            FoundationKey::AssistantName => 1,
            FoundationKey::InternalCodename => 2,
            FoundationKey::SunlightOsIdentity => 3,
            FoundationKey::GeneralRole => 4,
            FoundationKey::HighLevelCapabilities => 5,
            FoundationKey::SafetyPrinciples => 6,
            FoundationKey::CapabilitySecurityModel => 7,
            FoundationKey::RuntimeInfoGuidance => 8,
            FoundationKey::MemoryLayerModel => 9,
        }
    }

    /// The key with this wire tag, if any.
    pub fn from_tag(tag: u16) -> (r: Option<FoundationKey>)
        ensures
            r == FoundationKey::spec_from_tag(tag),
    {
        match tag {
            1 => Some(FoundationKey::AssistantName),
            2 => Some(FoundationKey::InternalCodename),
            3 => Some(FoundationKey::SunlightOsIdentity),
            4 => Some(FoundationKey::GeneralRole),
            5 => Some(FoundationKey::HighLevelCapabilities),
            6 => Some(FoundationKey::SafetyPrinciples),
            7 => Some(FoundationKey::CapabilitySecurityModel),
            8 => Some(FoundationKey::RuntimeInfoGuidance),
            9 => Some(FoundationKey::MemoryLayerModel),
            _ => None,
        }
    }

    /// The key's name in the foundation source text.
    pub fn as_source_key(self) -> (s: &'static str)
        ensures
            s@ == self.spec_source_key(),
    {
        match self {
            FoundationKey::AssistantName => "assistant_name",
            FoundationKey::InternalCodename => "internal_codename",
            FoundationKey::SunlightOsIdentity => "sunlightos_identity",
            FoundationKey::GeneralRole => "general_role",
            FoundationKey::HighLevelCapabilities => "high_level_capabilities",
            FoundationKey::SafetyPrinciples => "safety_principles",
            FoundationKey::CapabilitySecurityModel => "capability_security_model",
            FoundationKey::RuntimeInfoGuidance => "runtime_info_guidance",
            FoundationKey::MemoryLayerModel => "memory_layer_model",
        }
    }

    /// The kind of grounded fact a key supplies.
    pub fn fact_kind(self) -> (k: FactKind)
        ensures
            k == self.spec_fact_kind(),
    {
        match self {
            FoundationKey::AssistantName => FactKind::AssistantName,
            FoundationKey::InternalCodename => FactKind::AssistantCodename,
            FoundationKey::SunlightOsIdentity => FactKind::SunlightIdentity,
            FoundationKey::GeneralRole => FactKind::FoundationRole,
            FoundationKey::HighLevelCapabilities => FactKind::FoundationCapabilities,
            FoundationKey::SafetyPrinciples => FactKind::FoundationSafety,
            FoundationKey::CapabilitySecurityModel => FactKind::FoundationSecurityModel,
            FoundationKey::RuntimeInfoGuidance => FactKind::FoundationRuntimeInfo,
            FoundationKey::MemoryLayerModel => FactKind::FoundationMemoryModel,
        }
    }
}

/// Every key is found again from its tag, and a tag names at most one key.
pub proof fn lemma_tag_round_trip(key: FoundationKey, tag: u16)
    ensures
        FoundationKey::spec_from_tag(key.spec_tag()) == Some(key),
        FoundationKey::spec_from_tag(tag) matches Some(k) ==> k.spec_tag() == tag,
{
}

/// One foundation fact.
#[derive(Debug, Clone, PartialEq, Eq)]
pub struct FoundationRecord {
    pub key: FoundationKey,
    pub value: String,
    pub token_offset: u32,
    pub token_count: u16,
}

/// The postings of one token.
#[derive(Debug, Clone, PartialEq, Eq)]
pub struct FoundationTokenEntry {
    pub token_id: u64,
    pub frequency: u16,
    pub positions_truncated: bool,
    pub positions: Vec<u32>,
}

/// The tokenizer a blob must have been built with.
#[derive(Debug, Clone, Copy, PartialEq, Eq)]
pub struct FoundationTokenizerIdentity {
    pub id: u32,
    pub version: u32,
    pub fingerprint: [u8; 32],
}

/// A decoded, validated foundation blob.
#[derive(Debug, Clone, PartialEq, Eq)]
pub struct FoundationMemory {
    pub schema_version: u16,
    pub tokenizer_id: u32,
    pub tokenizer_version: u32,
    pub tokenizer_fingerprint: [u8; 32],
    pub records: Vec<FoundationRecord>,
    pub tokens: Vec<FoundationTokenEntry>,
    pub integrity_hash: [u8; 32],
}

#[derive(Debug, Clone, Copy, PartialEq, Eq, Structural)]
pub enum FoundationLoadError {
    BadMagic,
    UnsupportedFormatVersion(u16),
    UnsupportedSchemaVersion(u16),
    TokenizerIdMismatch(u32),
    TokenizerVersionMismatch(u32),
    TokenizerFingerprintMismatch,
    IntegrityHashMismatch,
    BadLayout,
    InvalidKey(u16),
    InvalidUtf8,
    TokenSliceOutOfBounds,
    Truncated,
}

impl FoundationLoadError {
    pub open spec fn spec_as_str(self) -> Seq<char> {
        match self {
            FoundationLoadError::BadMagic => "bad-magic"@,
            FoundationLoadError::UnsupportedFormatVersion(_) => "format-version"@,
            FoundationLoadError::UnsupportedSchemaVersion(_) => "schema-version"@,
            FoundationLoadError::TokenizerIdMismatch(_) => "tokenizer-id"@,
            FoundationLoadError::TokenizerVersionMismatch(_) => "tokenizer-version"@,
            FoundationLoadError::TokenizerFingerprintMismatch => "tokenizer-fingerprint"@,
            FoundationLoadError::IntegrityHashMismatch => "integrity-hash"@,
            FoundationLoadError::BadLayout => "layout"@,
            FoundationLoadError::InvalidKey(_) => "invalid-key"@,
            FoundationLoadError::InvalidUtf8 => "invalid-utf8"@,
            FoundationLoadError::TokenSliceOutOfBounds => "token-slice"@,
            FoundationLoadError::Truncated => "truncated"@,
        }
    }

    /// A short, stable label of the error.
    pub fn as_str(&self) -> (s: &'static str)
        ensures
            s@ == self.spec_as_str(),
    {
        match self {
            FoundationLoadError::BadMagic => "bad-magic",
            FoundationLoadError::UnsupportedFormatVersion(_) => "format-version",
            FoundationLoadError::UnsupportedSchemaVersion(_) => "schema-version",
            FoundationLoadError::TokenizerIdMismatch(_) => "tokenizer-id",
            FoundationLoadError::TokenizerVersionMismatch(_) => "tokenizer-version",
            FoundationLoadError::TokenizerFingerprintMismatch => "tokenizer-fingerprint",
            FoundationLoadError::IntegrityHashMismatch => "integrity-hash",
            FoundationLoadError::BadLayout => "layout",
            FoundationLoadError::InvalidKey(_) => "invalid-key",
            FoundationLoadError::InvalidUtf8 => "invalid-utf8",
            FoundationLoadError::TokenSliceOutOfBounds => "token-slice",
            FoundationLoadError::Truncated => "truncated",
        }
    }
}

// ----- reading little-endian integers -----

pub open spec fn u16_at(b: Seq<u8>, off: int) -> u16 {
    (b[off] as int + 256 * (b[off + 1] as int)) as u16
}

pub open spec fn u32_at(b: Seq<u8>, off: int) -> u32 {
    (b[off] as int + 256 * (b[off + 1] as int) + 65536 * (b[off + 2] as int) + 16777216 * (
    b[off + 3] as int)) as u32
}

pub open spec fn u64_at(b: Seq<u8>, off: int) -> u64 {
    (u32_at(b, off) as int + 4294967296 * (u32_at(b, off + 4) as int)) as u64
}

fn read_u16(bytes: &[u8], offset: usize) -> (r: Result<u16, FoundationLoadError>)
    ensures
        offset + 2 <= bytes@.len() ==> r == Ok::<u16, FoundationLoadError>(u16_at(bytes@, offset as int)),
        offset + 2 > bytes@.len() ==> r == Err::<u16, FoundationLoadError>(FoundationLoadError::Truncated),
{
    if bytes.len() < 2 || offset > bytes.len() - 2 {
        return Err(FoundationLoadError::Truncated);
    }
    let v: u16 = (bytes[offset] as u16) + (bytes[offset + 1] as u16) * 256;
    Ok(v)
}

fn read_u32(bytes: &[u8], offset: usize) -> (r: Result<u32, FoundationLoadError>)
    ensures
        offset + 4 <= bytes@.len() ==> r == Ok::<u32, FoundationLoadError>(u32_at(bytes@, offset as int)),
        offset + 4 > bytes@.len() ==> r == Err::<u32, FoundationLoadError>(FoundationLoadError::Truncated),
{
    if bytes.len() < 4 || offset > bytes.len() - 4 {
        return Err(FoundationLoadError::Truncated);
    }
    let v: u32 = (bytes[offset] as u32) + (bytes[offset + 1] as u32) * 256 + (bytes[offset + 2] as u32)
        * 65536 + (bytes[offset + 3] as u32) * 16777216;
    Ok(v)
}

fn read_u64(bytes: &[u8], offset: usize) -> (r: Result<u64, FoundationLoadError>)
    ensures
        offset + 8 <= bytes@.len() ==> r == Ok::<u64, FoundationLoadError>(u64_at(bytes@, offset as int)),
        offset + 8 > bytes@.len() ==> r == Err::<u64, FoundationLoadError>(FoundationLoadError::Truncated),
{
    if bytes.len() < 8 || offset > bytes.len() - 8 {
        return Err(FoundationLoadError::Truncated);
    }
    let lo = read_u32(bytes, offset);
    let hi = read_u32(bytes, offset + 4);
    match (lo, hi) {
        (Ok(lo), Ok(hi)) => {
            let v: u64 = (lo as u64) + (hi as u64) * 4294967296;
            Ok(v)
        },
        _ => Err(FoundationLoadError::Truncated),
    }
}

fn read_array32(bytes: &[u8], offset: usize) -> (r: Result<[u8; 32], FoundationLoadError>)
    ensures
        offset + 32 <= bytes@.len() ==> (r matches Ok(a) && a@ == bytes@.subrange(
            offset as int,
            offset + 32,
        )),
        offset + 32 > bytes@.len() ==> r == Err::<[u8; 32], FoundationLoadError>(
            FoundationLoadError::Truncated,
        ),
{
    if bytes.len() < 32 || offset > bytes.len() - 32 {
        return Err(FoundationLoadError::Truncated);
    }
    let n = bytes.len();
    let mut out = [0u8; 32];
    let mut i: usize = 0;
    while i < 32
        invariant
            0 <= i <= 32,
            n == bytes@.len(),
            offset + 32 <= n,
            forall|k: int| 0 <= k < i ==> out@[k] == bytes@[offset + k],
        decreases 32 - i,
    {
        out[i] = bytes[offset + i];
        i = i + 1;
    }
    assert(out@ =~= bytes@.subrange(offset as int, offset + 32));
    Ok(out)
}

fn slices_equal(a: &[u8], b: &[u8]) -> (r: bool)
    ensures
        r == (a@ == b@),
{
    if a.len() != b.len() {
        return false;
    }
    let mut i: usize = 0;
    while i < a.len()
        invariant
            a@.len() == b@.len(),
            0 <= i <= a@.len(),
            forall|k: int| 0 <= k < i ==> a@[k] == b@[k],
        decreases a@.len() - i,
    {
        if a[i] != b[i] {
            return false;
        }
        i = i + 1;
    }
    assert(a@ =~= b@);
    true
}

/// Decodes UTF-8 text with `core::str::from_utf8`.
/// Trusted: `Some` exactly when the bytes are valid UTF-8, and then the
/// text's UTF-8 encoding is the bytes handed in.
#[verifier::external_body]
pub(crate) fn utf8_text(bytes: &[u8]) -> (r: Option<String>)
    ensures
        r is Some <==> valid_utf8(bytes@),
        r matches Some(s) ==> encode_utf8(s@) == bytes@,
{
    match core::str::from_utf8(bytes) {
        Ok(text) => Some(text.to_string()),
        Err(_) => None,
    }
}

// ----- the format -----

/// A decoded record: key, text, first token, token count.
pub type RecordModel = (FoundationKey, Seq<char>, u32, u16);

/// A decoded token entry: id, frequency, truncated flag, positions.
pub type TokenModel = (u64, u16, bool, Seq<u32>);

pub open spec fn record_model(r: FoundationRecord) -> RecordModel {
    (r.key, r.value@, r.token_offset, r.token_count)
}

pub open spec fn token_model(t: FoundationTokenEntry) -> TokenModel {
    (t.token_id, t.frequency, t.positions_truncated, t.positions@)
}

/// The record at `c` of a records area and where the next one begins, or
/// why it is refused.
pub open spec fn record_at(b: Seq<u8>, c: int, total_tokens: int) -> Result<(RecordModel, int), FoundationLoadError> {
    if c + 10 > b.len() {
        Err(FoundationLoadError::Truncated)
    } else {
        let tag = u16_at(b, c);
        let value_end = c + 10 + u16_at(b, c + 2);
        let token_offset = u32_at(b, c + 4);
        let token_count = u16_at(b, c + 8);
        if value_end > b.len() {
            Err(FoundationLoadError::Truncated)
        } else if !valid_utf8(b.subrange(c + 10, value_end)) {
            Err(FoundationLoadError::InvalidUtf8)
        } else {
            match FoundationKey::spec_from_tag(tag) {
                None => Err(FoundationLoadError::InvalidKey(tag)),
                Some(key) => if token_offset > total_tokens || token_offset + token_count > total_tokens {
                    Err(FoundationLoadError::TokenSliceOutOfBounds)
                } else {
                    Ok(
                        (
                            (key, decode_utf8(b.subrange(c + 10, value_end)), token_offset, token_count),
                            value_end,
                        ),
                    )
                },
            }
        }
    }
}

/// `n` records from `c` that end the area exactly.
pub open spec fn records_from(b: Seq<u8>, c: int, n: nat, total_tokens: int) -> Result<
    Seq<RecordModel>,
    FoundationLoadError,
>
    decreases n,
{
    if n == 0 {
        if c == b.len() {
            Ok(Seq::<RecordModel>::empty())
        } else {
            Err(FoundationLoadError::BadLayout)
        }
    } else {
        match record_at(b, c, total_tokens) {
            Err(e) => Err(e),
            Ok((rec, next)) => prepend(seq![rec], records_from(b, next, (n - 1) as nat, total_tokens)),
        }
    }
}

/// The token entry at `c` of a tokens area and where the next one begins.
pub open spec fn token_at(b: Seq<u8>, c: int) -> Result<(TokenModel, int), FoundationLoadError> {
    if c + 14 > b.len() {
        Err(FoundationLoadError::Truncated)
    } else {
        let count = u16_at(b, c + 12);
        let end = c + 14 + 4 * count;
        if end > b.len() {
            Err(FoundationLoadError::Truncated)
        } else {
            Ok(
                (
                    (
                        u64_at(b, c),
                        u16_at(b, c + 8),
                        u16_at(b, c + 10) % 2 == 1,
                        Seq::new(count as nat, |k: int| u32_at(b, c + 14 + 4 * k)),
                    ),
                    end,
                ),
            )
        }
    }
}

/// `n` token entries from `c` that end the area exactly.
pub open spec fn tokens_from(b: Seq<u8>, c: int, n: nat) -> Result<Seq<TokenModel>, FoundationLoadError>
    decreases n,
{
    if n == 0 {
        if c == b.len() {
            Ok(Seq::<TokenModel>::empty())
        } else {
            Err(FoundationLoadError::BadLayout)
        }
    } else {
        match token_at(b, c) {
            Err(e) => Err(e),
            Ok((tok, next)) => prepend(seq![tok], tokens_from(b, next, (n - 1) as nat)),
        }
    }
}

/// `pre` followed by a decoded rest, or the rest's error.
pub open spec fn prepend<T>(pre: Seq<T>, rest: Result<Seq<T>, FoundationLoadError>) -> Result<
    Seq<T>,
    FoundationLoadError,
> {
    match rest {
        Ok(r) => Ok(pre + r),
        Err(e) => Err(e),
    }
}

proof fn lemma_prepend_assoc<T>(pre: Seq<T>, x: T, rest: Result<Seq<T>, FoundationLoadError>)
    ensures
        prepend(pre, prepend(seq![x], rest)) == prepend(pre.push(x), rest),
{
    if let Ok(r) = rest {
        assert(pre + (seq![x] + r) =~= pre.push(x) + r);
    }
}

/// Why a header is refused, in the order it is checked.
pub open spec fn header_error(b: Seq<u8>, expected: FoundationTokenizerIdentity) -> Option<FoundationLoadError> {
    if b.len() < FOUNDATION_HEADER_LEN {
        Some(FoundationLoadError::Truncated)
    } else if b.subrange(0, 8) != FOUNDATION_MAGIC@ {
        Some(FoundationLoadError::BadMagic)
    } else if u16_at(b, 8) != FOUNDATION_FORMAT_VERSION {
        Some(FoundationLoadError::UnsupportedFormatVersion(u16_at(b, 8)))
    } else if u16_at(b, 10) != FOUNDATION_SCHEMA_VERSION {
        Some(FoundationLoadError::UnsupportedSchemaVersion(u16_at(b, 10)))
    } else if u32_at(b, 12) != expected.id {
        Some(FoundationLoadError::TokenizerIdMismatch(u32_at(b, 12)))
    } else if u32_at(b, 16) != expected.version {
        Some(FoundationLoadError::TokenizerVersionMismatch(u32_at(b, 16)))
    } else if b.subrange(20, 52) != expected.fingerprint@ {
        Some(FoundationLoadError::TokenizerFingerprintMismatch)
    } else if u32_at(b, 58) != FOUNDATION_HEADER_LEN {
        Some(FoundationLoadError::BadLayout)
    } else if u32_at(b, 58) + u32_at(b, 62) != u32_at(b, 66) {
        Some(FoundationLoadError::BadLayout)
    } else if u32_at(b, 66) + u32_at(b, 70) != b.len() {
        Some(FoundationLoadError::BadLayout)
    } else {
        None
    }
}

/// The bytes the integrity hash covers: everything but the hash itself.
pub open spec fn integrity_preimage(b: Seq<u8>) -> Seq<u8> {
    b.subrange(0, INTEGRITY_HASH_OFFSET as int) + b.subrange(
        INTEGRITY_HASH_OFFSET + 32,
        b.len() as int,
    )
}

/// What a blob decodes to: its records and tokens, or the first reason it is refused.
pub open spec fn foundation_decode(b: Seq<u8>, expected: FoundationTokenizerIdentity) -> Result<
    (Seq<RecordModel>, Seq<TokenModel>),
    FoundationLoadError,
> {
    match header_error(b, expected) {
        Some(e) => Err(e),
        None => if spec_sha256(integrity_preimage(b)) != b.subrange(
            INTEGRITY_HASH_OFFSET as int,
            INTEGRITY_HASH_OFFSET + 32,
        ) {
            Err(FoundationLoadError::IntegrityHashMismatch)
        } else {
            let records = b.subrange(FOUNDATION_HEADER_LEN as int, u32_at(b, 66) as int);
            let tokens = b.subrange(u32_at(b, 66) as int, b.len() as int);
            match records_from(records, 0, u16_at(b, 52) as nat, u32_at(b, 54) as int) {
                Err(e) => Err(e),
                Ok(recs) => match tokens_from(tokens, 0, u32_at(b, 54) as nat) {
                    Err(e) => Err(e),
                    Ok(toks) => Ok((recs, toks)),
                },
            }
        },
    }
}

/// A memory holds exactly what its blob decodes to.
pub open spec fn memory_matches(
    m: FoundationMemory,
    b: Seq<u8>,
    recs: Seq<RecordModel>,
    toks: Seq<TokenModel>,
) -> bool {
    &&& m.schema_version == u16_at(b, 10)
    &&& m.tokenizer_id == u32_at(b, 12)
    &&& m.tokenizer_version == u32_at(b, 16)
    &&& m.tokenizer_fingerprint@ == b.subrange(20, 52)
    &&& m.integrity_hash@ == b.subrange(INTEGRITY_HASH_OFFSET as int, INTEGRITY_HASH_OFFSET + 32)
    &&& m.records@.map_values(|r: FoundationRecord| record_model(r)) == recs
    &&& m.tokens@.map_values(|t: FoundationTokenEntry| token_model(t)) == toks
}

fn decode_record(bytes: &[u8], cursor: usize, total_tokens: usize) -> (r: Result<
    (FoundationRecord, usize),
    FoundationLoadError,
>)
    requires
        cursor <= bytes@.len(),
        total_tokens <= u32::MAX,
    ensures
        match record_at(bytes@, cursor as int, total_tokens as int) {
            Err(e) => r == Err::<(FoundationRecord, usize), FoundationLoadError>(e),
            Ok((rec, next)) => r matches Ok((fr, n)) && record_model(fr) == rec && n == next,
        },
{
    let n = bytes.len();
    if n < 10 || cursor > n - 10 {
        return Err(FoundationLoadError::Truncated);
    }
    let key_tag = match read_u16(bytes, cursor) {
        Ok(v) => v,
        Err(e) => return Err(e),
    };
    let value_len = match read_u16(bytes, cursor + 2) {
        Ok(v) => v,
        Err(e) => return Err(e),
    };
    let token_offset = match read_u32(bytes, cursor + 4) {
        Ok(v) => v,
        Err(e) => return Err(e),
    };
    let token_count = match read_u16(bytes, cursor + 8) {
        Ok(v) => v,
        Err(e) => return Err(e),
    };
    let start = cursor + 10;
    if value_len as usize > n - start {
        return Err(FoundationLoadError::Truncated);
    }
    let value_end = start + value_len as usize;
    let value = match utf8_text(&bytes[start..value_end]) {
        Some(s) => s,
        None => return Err(FoundationLoadError::InvalidUtf8),
    };
    proof {
        encode_utf8_decode_utf8(value@);
    }
    let key = match FoundationKey::from_tag(key_tag) {
        Some(k) => k,
        None => return Err(FoundationLoadError::InvalidKey(key_tag)),
    };
    let offset = token_offset as usize;
    let count = token_count as usize;
    if offset > total_tokens || count > total_tokens - offset {
        return Err(FoundationLoadError::TokenSliceOutOfBounds);
    }
    Ok((FoundationRecord { key, value, token_offset, token_count }, value_end))
}

fn decode_records(bytes: &[u8], record_count: usize, total_tokens: usize) -> (r: Result<
    Vec<FoundationRecord>,
    FoundationLoadError,
>)
    requires
        total_tokens <= u32::MAX,
    ensures
        match records_from(bytes@, 0, record_count as nat, total_tokens as int) {
            Err(e) => r == Err::<Vec<FoundationRecord>, FoundationLoadError>(e),
            Ok(m) => r matches Ok(v) && v@.map_values(|x: FoundationRecord| record_model(x)) == m,
        },
{
    let mut cursor: usize = 0;
    let mut records: Vec<FoundationRecord> = Vec::new();
    let mut i: usize = 0;
    while i < record_count
        invariant
            0 <= i <= record_count,
            cursor <= bytes@.len(),
            total_tokens <= u32::MAX,
            records_from(bytes@, 0, record_count as nat, total_tokens as int) == prepend(
                records@.map_values(|x: FoundationRecord| record_model(x)),
                records_from(bytes@, cursor as int, (record_count - i) as nat, total_tokens as int),
            ),
        decreases record_count - i,
    {
        let ghost pre = records@.map_values(|x: FoundationRecord| record_model(x));
        match decode_record(bytes, cursor, total_tokens) {
            Err(e) => {
                return Err(e);
            },
            Ok((rec, next)) => {
                proof {
                    lemma_prepend_assoc(
                        pre,
                        record_model(rec),
                        records_from(bytes@, next as int, (record_count - i - 1) as nat, total_tokens as int),
                    );
                }
                records.push(rec);
                assert(records@.map_values(|x: FoundationRecord| record_model(x)) =~= pre.push(
                    record_model(rec),
                ));
                cursor = next;
            },
        }
        i = i + 1;
    }
    if cursor != bytes.len() {
        return Err(FoundationLoadError::BadLayout);
    }
    assert(records@.map_values(|x: FoundationRecord| record_model(x)) + Seq::<RecordModel>::empty()
        =~= records@.map_values(|x: FoundationRecord| record_model(x)));
    Ok(records)
}

fn decode_token(bytes: &[u8], cursor: usize) -> (r: Result<(FoundationTokenEntry, usize), FoundationLoadError>)
    requires
        cursor <= bytes@.len(),
    ensures
        match token_at(bytes@, cursor as int) {
            Err(e) => r == Err::<(FoundationTokenEntry, usize), FoundationLoadError>(e),
            Ok((tok, next)) => r matches Ok((t, n)) && token_model(t) == tok && n == next,
        },
{
    let n = bytes.len();
    if n < 14 || cursor > n - 14 {
        return Err(FoundationLoadError::Truncated);
    }
    let token_id = match read_u64(bytes, cursor) {
        Ok(v) => v,
        Err(e) => return Err(e),
    };
    let frequency = match read_u16(bytes, cursor + 8) {
        Ok(v) => v,
        Err(e) => return Err(e),
    };
    let flags = match read_u16(bytes, cursor + 10) {
        Ok(v) => v,
        Err(e) => return Err(e),
    };
    let position_count = match read_u16(bytes, cursor + 12) {
        Ok(v) => v,
        Err(e) => return Err(e),
    };
    let start = cursor + 14;
    let mut positions: Vec<u32> = Vec::new();
    let mut at: usize = start;
    let mut k: u16 = 0;
    while k < position_count
        invariant
            n == bytes@.len(),
            start == cursor + 14,
            start <= bytes@.len(),
            0 <= k <= position_count,
            position_count == u16_at(bytes@, cursor + 12),
            at == start + 4 * k,
            at <= bytes@.len(),
            positions@.len() == k,
            forall|t: int| 0 <= t < k ==> positions@[t] == u32_at(bytes@, cursor + 14 + 4 * t),
        decreases position_count - k,
    {
        match read_u32(bytes, at) {
            Ok(p) => positions.push(p),
            Err(e) => {
                return Err(e);
            },
        }
        at = at + 4;
        k = k + 1;
    }
    let entry = FoundationTokenEntry {
        token_id,
        frequency,
        positions_truncated: flags % 2 == 1,
        positions,
    };
    proof {
        assert(entry.positions@ =~= Seq::new(
            position_count as nat,
            |t: int| u32_at(bytes@, cursor + 14 + 4 * t),
        ));
    }
    Ok((entry, at))
}

fn decode_tokens(bytes: &[u8], token_count: usize) -> (r: Result<Vec<FoundationTokenEntry>, FoundationLoadError>)
    ensures
        match tokens_from(bytes@, 0, token_count as nat) {
            Err(e) => r == Err::<Vec<FoundationTokenEntry>, FoundationLoadError>(e),
            Ok(m) => r matches Ok(v) && v@.map_values(|x: FoundationTokenEntry| token_model(x)) == m,
        },
{
    let mut cursor: usize = 0;
    let mut tokens: Vec<FoundationTokenEntry> = Vec::new();
    let mut i: usize = 0;
    while i < token_count
        invariant
            0 <= i <= token_count,
            cursor <= bytes@.len(),
            tokens_from(bytes@, 0, token_count as nat) == prepend(
                tokens@.map_values(|x: FoundationTokenEntry| token_model(x)),
                tokens_from(bytes@, cursor as int, (token_count - i) as nat),
            ),
        decreases token_count - i,
    {
        let ghost pre = tokens@.map_values(|x: FoundationTokenEntry| token_model(x));
        match decode_token(bytes, cursor) {
            Err(e) => {
                return Err(e);
            },
            Ok((tok, next)) => {
                proof {
                    lemma_prepend_assoc(
                        pre,
                        token_model(tok),
                        tokens_from(bytes@, next as int, (token_count - i - 1) as nat),
                    );
                }
                tokens.push(tok);
                assert(tokens@.map_values(|x: FoundationTokenEntry| token_model(x)) =~= pre.push(
                    token_model(tok),
                ));
                cursor = next;
            },
        }
        i = i + 1;
    }
    if cursor != bytes.len() {
        return Err(FoundationLoadError::BadLayout);
    }
    assert(tokens@.map_values(|x: FoundationTokenEntry| token_model(x)) + Seq::<TokenModel>::empty()
        =~= tokens@.map_values(|x: FoundationTokenEntry| token_model(x)));
    Ok(tokens)
}

/// The first record with a key, if any.
pub open spec fn first_with_key(records: Seq<FoundationRecord>, key: FoundationKey, from: int) -> Option<int>
    decreases records.len() - from,
{
    if from < 0 || from >= records.len() {
        None
    } else if records[from].key == key {
        Some(from)
    } else {
        first_with_key(records, key, from + 1)
    }
}

impl FoundationMemory {
    /// Decodes a foundation blob and validates it against the tokenizer it
    /// must have been built with; any header, integrity, layout, key, text or
    /// token-range fault refuses the whole blob.
    #[verifier::rlimit(30)]
    pub fn decode_and_validate(bytes: &[u8], expected: &FoundationTokenizerIdentity) -> (r: Result<
        FoundationMemory,
        FoundationLoadError,
    >)
        ensures
            match foundation_decode(bytes@, *expected) {
                Err(e) => r == Err::<FoundationMemory, FoundationLoadError>(e),
                Ok((recs, toks)) => r matches Ok(m) && memory_matches(m, bytes@, recs, toks),
            },
    {
        let n = bytes.len();
        if n < FOUNDATION_HEADER_LEN {
            return Err(FoundationLoadError::Truncated);
        }
        if !slices_equal(&bytes[0..8], FOUNDATION_MAGIC.as_slice()) {
            return Err(FoundationLoadError::BadMagic);
        }
        let format_version = match read_u16(bytes, 8) {
            Ok(v) => v,
            Err(e) => return Err(e),
        };
        if format_version != FOUNDATION_FORMAT_VERSION {
            return Err(FoundationLoadError::UnsupportedFormatVersion(format_version));
        }
        let schema_version = match read_u16(bytes, 10) {
            Ok(v) => v,
            Err(e) => return Err(e),
        };
        if schema_version != FOUNDATION_SCHEMA_VERSION {
            return Err(FoundationLoadError::UnsupportedSchemaVersion(schema_version));
        }
        let tokenizer_id = match read_u32(bytes, 12) {
            Ok(v) => v,
            Err(e) => return Err(e),
        };
        if tokenizer_id != expected.id {
            return Err(FoundationLoadError::TokenizerIdMismatch(tokenizer_id));
        }
        let tokenizer_version = match read_u32(bytes, 16) {
            Ok(v) => v,
            Err(e) => return Err(e),
        };
        if tokenizer_version != expected.version {
            return Err(FoundationLoadError::TokenizerVersionMismatch(tokenizer_version));
        }
        let tokenizer_fingerprint = match read_array32(bytes, 20) {
            Ok(v) => v,
            Err(e) => return Err(e),
        };
        if !slices_equal(tokenizer_fingerprint.as_slice(), expected.fingerprint.as_slice()) {
            return Err(FoundationLoadError::TokenizerFingerprintMismatch);
        }
        let record_count = match read_u16(bytes, 52) {
            Ok(v) => v,
            Err(e) => return Err(e),
        };
        let token_count = match read_u32(bytes, 54) {
            Ok(v) => v,
            Err(e) => return Err(e),
        };
        let records_offset = match read_u32(bytes, 58) {
            Ok(v) => v,
            Err(e) => return Err(e),
        };
        let records_len = match read_u32(bytes, 62) {
            Ok(v) => v,
            Err(e) => return Err(e),
        };
        let tokens_offset = match read_u32(bytes, 66) {
            Ok(v) => v,
            Err(e) => return Err(e),
        };
        let tokens_len = match read_u32(bytes, 70) {
            Ok(v) => v,
            Err(e) => return Err(e),
        };
        let integrity_hash = match read_array32(bytes, INTEGRITY_HASH_OFFSET) {
            Ok(v) => v,
            Err(e) => return Err(e),
        };
        if records_offset as usize != FOUNDATION_HEADER_LEN {
            return Err(FoundationLoadError::BadLayout);
        }
        if records_offset as u64 + records_len as u64 != tokens_offset as u64 {
            return Err(FoundationLoadError::BadLayout);
        }
        if tokens_offset as u64 + tokens_len as u64 != n as u64 {
            return Err(FoundationLoadError::BadLayout);
        }
        let mut hashed: Vec<u8> = Vec::new();
        let mut i: usize = 0;
        while i < INTEGRITY_HASH_OFFSET
            invariant
                n == bytes@.len(),
                n >= FOUNDATION_HEADER_LEN,
                0 <= i <= INTEGRITY_HASH_OFFSET,
                hashed@ == bytes@.subrange(0, i as int),
            decreases INTEGRITY_HASH_OFFSET - i,
        {
            hashed.push(bytes[i]);
            i = i + 1;
            assert(hashed@ =~= bytes@.subrange(0, i as int));
        }
        let mut j: usize = INTEGRITY_HASH_OFFSET + 32;
        while j < n
            invariant
                n == bytes@.len(),
                INTEGRITY_HASH_OFFSET + 32 <= j <= n,
                hashed@ == bytes@.subrange(0, INTEGRITY_HASH_OFFSET as int) + bytes@.subrange(
                    INTEGRITY_HASH_OFFSET + 32,
                    j as int,
                ),
            decreases n - j,
        {
            hashed.push(bytes[j]);
            j = j + 1;
            assert(hashed@ =~= bytes@.subrange(0, INTEGRITY_HASH_OFFSET as int) + bytes@.subrange(
                INTEGRITY_HASH_OFFSET + 32,
                j as int,
            ));
        }
        let digest = sha256(hashed.as_slice());
        if !slices_equal(digest.as_slice(), integrity_hash.as_slice()) {
            return Err(FoundationLoadError::IntegrityHashMismatch);
        }
        let records_end = tokens_offset as usize;
        let records = match decode_records(
            &bytes[FOUNDATION_HEADER_LEN..records_end],
            record_count as usize,
            token_count as usize,
        ) {
            Ok(v) => v,
            Err(e) => return Err(e),
        };
        let tokens = match decode_tokens(&bytes[records_end..n], token_count as usize) {
            Ok(v) => v,
            Err(e) => return Err(e),
        };
        Ok(
            FoundationMemory {
                schema_version,
                tokenizer_id,
                tokenizer_version,
                tokenizer_fingerprint,
                records,
                tokens,
                integrity_hash,
            },
        )
    }

    pub fn record_count(&self) -> (n: usize)
        ensures
            n == self.records@.len(),
    {
        self.records.len()
    }

    pub fn token_count(&self) -> (n: usize)
        ensures
            n == self.tokens@.len(),
    {
        self.tokens.len()
    }

    /// The text of the first record with this key.
    pub fn get(&self, key: FoundationKey) -> (r: Option<&str>)
        ensures
            match first_with_key(self.records@, key, 0) {
                None => r is None,
                Some(i) => r matches Some(s) && s@ == self.records@[i].value@,
            },
    {
        let mut i: usize = 0;
        while i < self.records.len()
            invariant
                0 <= i <= self.records@.len(),
                first_with_key(self.records@, key, 0) == first_with_key(self.records@, key, i as int),
            decreases self.records@.len() - i,
        {
            if self.records[i].key == key {
                return Some(self.records[i].value.as_str());
            }
            i = i + 1;
        }
        None
    }
}

/// The outcome of loading the foundation: a memory, or the reason there is none.
#[derive(Debug, Clone)]
pub struct FoundationLoadState {
    memory: Option<FoundationMemory>,
    error: Option<FoundationLoadError>,
}

impl FoundationLoadState {
    pub closed spec fn spec_memory(&self) -> Option<FoundationMemory> {
        self.memory
    }

    pub closed spec fn spec_error(&self) -> Option<FoundationLoadError> {
        self.error
    }

    /// Exactly one of a memory and an error is held.
    pub open spec fn wf(&self) -> bool {
        self.spec_memory() is Some != self.spec_error() is Some
    }

    /// Loads the foundation from a blob.
    pub fn load(bytes: &[u8], expected: &FoundationTokenizerIdentity) -> (s: Self)
        ensures
            s.wf(),
            match foundation_decode(bytes@, *expected) {
                Err(e) => s.spec_memory() is None && s.spec_error() == Some(e),
                Ok((recs, toks)) => s.spec_error() is None && (s.spec_memory() matches Some(m)
                    && memory_matches(m, bytes@, recs, toks)),
            },
    {
        match FoundationMemory::decode_and_validate(bytes, expected) {
            Ok(memory) => FoundationLoadState { memory: Some(memory), error: None },
            Err(error) => FoundationLoadState { memory: None, error: Some(error) },
        }
    }

    pub fn memory(&self) -> (r: Option<&FoundationMemory>)
        ensures
            r matches Some(m) ==> self.spec_memory() == Some(*m),
            r is None <==> self.spec_memory() is None,
    {
        match &self.memory {
            Some(m) => Some(m),
            None => None,
        }
    }

    pub fn error(&self) -> (r: Option<&FoundationLoadError>)
        ensures
            r matches Some(e) ==> self.spec_error() == Some(*e),
            r is None <==> self.spec_error() is None,
    {
        match &self.error {
            Some(e) => Some(e),
            None => None,
        }
    }

    pub fn is_ready(&self) -> (r: bool)
        ensures
            r == self.spec_memory() is Some,
    {
        self.memory.is_some()
    }

    pub fn record_count(&self) -> (n: usize)
        ensures
            n == (match self.spec_memory() {
                Some(m) => m.records@.len(),
                None => 0,
            }),
    {
        match &self.memory {
            Some(m) => m.record_count(),
            None => 0,
        }
    }

    pub fn token_count(&self) -> (n: usize)
        ensures
            n == (match self.spec_memory() {
                Some(m) => m.tokens@.len(),
                None => 0,
            }),
    {
        match &self.memory {
            Some(m) => m.token_count(),
            None => 0,
        }
    }

    /// "ready", or the label of the load error.
    pub fn status_label(&self) -> (s: &'static str)
        ensures
            s@ == (match self.spec_error() {
                Some(e) => e.spec_as_str(),
                None => "ready"@,
            }),
    {
        match &self.error {
            Some(e) => e.as_str(),
            None => "ready",
        }
    }
}

} // verus!
