//! The certificate ledger: issuance, verification and the link to a minted
//! token.

use std::collections::hash_map::DefaultHasher;
use vstd::prelude::*;
use vstd::string::*;
use vstd::utf8::encode_utf8;

use crate::digest::{sha256_hex, text_digest_hex};
use crate::error::{IssuanceError, LinkError, NotFound, QuotaKind};
use crate::identity::{
    authenticate_user, is_authenticated, principal_text_of, CallContext, Unauthenticated,
};
use crate::lock::{is_held, IssuanceLock};
use crate::store::{
    distinct_keys, lemma_present_keys_fit, lookup, position, upsert, values_of, Registry,
};
use crate::subscription::{
    get_tier, tier_of, PermissionRegistry, SubscriptionRegistry, SubscriptionTier,
    UserPermissionsView,
};
use crate::text::{
    decimal, hex_fixed, lemma_hex_fixed_tells_apart, lemma_pow16_of_sixteen, lemma_same_beginning,
    to_uppercase, u64_to_decimal, u64_to_hex16, uppercase_of,
};
use crate::types::certificate::{
    Certificate, CertificateMetadata, CertificateMetadataView, CertificateStatus, CertificateView,
    CreateCertificateRequest, CreateCertificateRequestView, NFTGenerationResult, NftLink,
    NftLinkView, VerificationResult, VerificationResultView,
};
use crate::physical_art::SessionStore;
use crate::types::physical_art::{PhysicalArtSessionView, SessionStatus};
use crate::validation::{sanitized_request, validate_and_sanitize_input, validation_fault};

verus! {

/// Issued certificates by identifier, in the order of issuance.
pub type CertificateLedger = Registry<Certificate>;

/// Lifetime of a certificate: ten years of 365 days, in nanoseconds.
pub const TEN_YEARS_NS: u64 = 315_360_000_000_000_000;

/// Bytes in a megabyte.
pub const BYTES_PER_MB: u64 = 1_048_576;

/// Megabytes assumed for each photo whose size the caller did not state.
pub const ASSUMED_MB_PER_PHOTO: u64 = 5;

/// The user may create certificates: no permission record exists, or the
/// record allows it.
pub open spec fn is_authorized(
    permissions: Seq<(Seq<char>, UserPermissionsView)>,
    username: Seq<char>,
) -> bool {
    match lookup(permissions, username) {
        Some(p) => p.can_create_certificates,
        None => true,
    }
}

/// The user's permission record forbids the operation.
#[derive(Clone, Copy, Debug, PartialEq, Eq, Structural)]
pub struct Unauthorized;

/// Admits `username` unless a permission record forbids it to create
/// certificates.
pub fn authorize_certificate_creation(permissions: &PermissionRegistry, username: &String) -> (r:
    Result<(), Unauthorized>)
    ensures
        r is Ok <==> is_authorized(permissions@, username@),
{
    match permissions.get(username) {
        Some(p) => {
            if p.can_create_certificates {
                Ok(())
            } else {
                Err(Unauthorized)
            }
        },
        None => Ok(()),
    }
}

/// Sum of the sizes.
pub open spec fn total_bytes(sizes: Seq<u64>) -> nat
    decreases sizes.len(),
{
    if sizes.len() == 0 {
        0
    } else {
        total_bytes(sizes.drop_last()) + sizes.last() as nat
    }
}

/// Total upload size in whole megabytes: from the stated file sizes where
/// there are any, else five megabytes for each photo that the request
/// names.
pub open spec fn total_size_mb(sizes: Seq<u64>, photo_count: u32) -> nat {
    if sizes.len() > 0 {
        total_bytes(sizes) / (BYTES_PER_MB as nat)
    } else {
        (photo_count * ASSUMED_MB_PER_PHOTO) as nat
    }
}

/// `n` as a `u64`, and the largest `u64` where it does not fit.
pub open spec fn clamp_u64(n: nat) -> u64 {
    if n > u64::MAX {
        u64::MAX
    } else {
        n as u64
    }
}

/// A request that passed every check, with what the checks found.
#[derive(Debug, PartialEq, Eq)]
pub struct Approval {
    /// The request, sanitized.
    pub request: CreateCertificateRequest,
    /// Number of photos in the session.
    pub photo_count: u32,
    /// Total upload size in megabytes.
    pub total_size_mb: u32,
}

/// Model of [`Approval`].
pub struct ApprovalView {
    pub request: CreateCertificateRequestView,
    pub photo_count: u32,
    pub total_size_mb: u32,
}

impl View for Approval {
    type V = ApprovalView;

    open spec fn view(&self) -> ApprovalView {
        ApprovalView {
            request: self.request@,
            photo_count: self.photo_count,
            total_size_mb: self.total_size_mb,
        }
    }
}

/// The first check that the session of a valid request fails, if it fails
/// one: state, ownership, photo quota, size quota, photo count. The size
/// quota is held against the stated file sizes, or against an estimate from
/// the photo count that the request names; only the last check compares
/// that count with the session.
pub open spec fn session_fault(
    session: PhysicalArtSessionView,
    tier: SubscriptionTier,
    request: CreateCertificateRequestView,
) -> Option<IssuanceError> {
    let photos = session.uploaded_photos.len();
    let limits = tier.limits();
    if session.status != SessionStatus::Active && session.status != SessionStatus::Uploading {
        Some(IssuanceError::InvalidState)
    } else if session.username != request.username {
        Some(IssuanceError::OwnershipMismatch)
    } else if photos > limits.max_photos {
        Some(
            IssuanceError::QuotaExceeded {
                kind: QuotaKind::Photos,
                current: clamp_u64(photos),
                limit: limits.max_photos as u64,
                suggested_tier: tier.upgrade(),
            },
        )
    } else if total_size_mb(request.file_sizes, request.photo_count) > limits.max_file_size_mb {
        Some(
            IssuanceError::QuotaExceeded {
                kind: QuotaKind::TotalSize,
                current: clamp_u64(total_size_mb(request.file_sizes, request.photo_count)),
                limit: limits.max_file_size_mb as u64,
                suggested_tier: tier.upgrade(),
            },
        )
    } else if photos != request.photo_count {
        Some(IssuanceError::CountMismatch)
    } else {
        None
    }
}

/// The first check that a request fails once the lock is taken, if it fails
/// one: validation, then the session's existence, then [`session_fault`].
pub open spec fn review_fault(
    sessions: Seq<(Seq<char>, PhysicalArtSessionView)>,
    subscriptions: Seq<(Seq<char>, SubscriptionTier)>,
    request: CreateCertificateRequestView,
) -> Option<IssuanceError> {
    match validation_fault(request) {
        Some(e) => Some(IssuanceError::Invalid(e)),
        None => match lookup(sessions, request.session_id) {
            None => Some(IssuanceError::NotFound),
            Some(session) => session_fault(
                session,
                tier_of(subscriptions, request.username),
                sanitized_request(request),
            ),
        },
    }
}

/// What the checks hand on for a request that passes them.
pub open spec fn approval_of(
    sessions: Seq<(Seq<char>, PhysicalArtSessionView)>,
    request: CreateCertificateRequestView,
) -> ApprovalView {
    let photos = lookup(sessions, request.session_id)->0.uploaded_photos.len();
    ApprovalView {
        request: sanitized_request(request),
        photo_count: photos as u32,
        total_size_mb: total_size_mb(request.file_sizes, request.photo_count) as u32,
    }
}

/// Sum of the sizes.
fn sum_sizes(sizes: &Vec<u64>) -> (total: u128)
    ensures
        total == total_bytes(sizes@),
{
    let mut total: u128 = 0;
    let mut i: usize = 0;
    assert(sizes@.subrange(0, 0) =~= Seq::<u64>::empty());
    while i < sizes.len()
        invariant
            i <= sizes.len(),
            total == total_bytes(sizes@.subrange(0, i as int)),
            total <= i * 0xffff_ffff_ffff_ffff,
        decreases sizes.len() - i,
    {
        proof {
            let next = sizes@.subrange(0, i as int + 1);
            assert(next.drop_last() =~= sizes@.subrange(0, i as int));
            assert(next.last() == sizes@[i as int]);
        }
        total = total + sizes[i] as u128;
        i = i + 1;
    }
    assert(sizes@.subrange(0, sizes.len() as int) =~= sizes@);
    total
}

/// Runs the checks that follow the lock: validates and sanitizes the
/// request, finds its session, and holds the session against state,
/// ownership, the quotas of the owner's tier and the photo count that the
/// request names.
pub fn review_request(
    sessions: &SessionStore,
    subscriptions: &SubscriptionRegistry,
    request: &CreateCertificateRequest,
) -> (r: Result<Approval, IssuanceError>)
    ensures
        match review_fault(sessions@, subscriptions@, request@) {
            Some(e) => r == Err::<Approval, IssuanceError>(e),
            None => r is Ok && r->Ok_0@ == approval_of(sessions@, request@),
        },
{
    let sanitized = match validate_and_sanitize_input(request) {
        Err(e) => {
            return Err(IssuanceError::Invalid(e));
        },
        Ok(s) => s,
    };
    let session = match sessions.get(&sanitized.session_id) {
        None => {
            return Err(IssuanceError::NotFound);
        },
        Some(s) => s,
    };
    match session.status {
        SessionStatus::Active => {},
        SessionStatus::Uploading => {},
        _ => {
            return Err(IssuanceError::InvalidState);
        },
    }
    if !(session.username == sanitized.username) {
        return Err(IssuanceError::OwnershipMismatch);
    }
    let tier = get_tier(subscriptions, &sanitized.username);
    let limits = tier.get_limits();
    let photos: usize = session.uploaded_photos.len();
    assert(photos == session@.uploaded_photos.len());
    if photos > limits.max_photos as usize {
        return Err(
            IssuanceError::QuotaExceeded {
                kind: QuotaKind::Photos,
                current: photos as u64,
                limit: limits.max_photos as u64,
                suggested_tier: tier.suggested_upgrade(),
            },
        );
    }
    let total_mb: u128 = if sanitized.file_sizes.len() > 0 {
        sum_sizes(&sanitized.file_sizes) / (BYTES_PER_MB as u128)
    } else {
        (sanitized.photo_count as u128) * (ASSUMED_MB_PER_PHOTO as u128)
    };
    assert(total_mb == total_size_mb(request@.file_sizes, request@.photo_count));
    if total_mb > limits.max_file_size_mb as u128 {
        let current: u64 = if total_mb > u64::MAX as u128 {
            u64::MAX
        } else {
            total_mb as u64
        };
        return Err(
            IssuanceError::QuotaExceeded {
                kind: QuotaKind::TotalSize,
                current,
                limit: limits.max_file_size_mb as u64,
                suggested_tier: tier.suggested_upgrade(),
            },
        );
    }
    if photos != sanitized.photo_count as usize {
        return Err(IssuanceError::CountMismatch);
    }
    Ok(Approval { request: sanitized, photo_count: photos as u32, total_size_mb: total_mb as u32 })
}

/// `n`, and `cap` where `n` exceeds it.
pub open spec fn capped(n: int, cap: int) -> int {
    if n < cap {
        n
    } else {
        cap
    }
}

/// Verification score for a session with `photos` photos: 85 and two points
/// for each photo, up to 15 points.
pub open spec fn verification_score_for(photos: u32) -> u32 {
    (85 + capped(2 * photos, 15)) as u32
}

/// Authenticity rating: 90 and one point for each photo, up to 10 points.
pub open spec fn authenticity_rating_for(photos: u32) -> u32 {
    (90 + capped(photos as int, 10)) as u32
}

/// Provenance score: 88 and one point for each photo, up to 12 points.
pub open spec fn provenance_score_for(photos: u32) -> u32 {
    (88 + capped(photos as int, 12)) as u32
}

/// Community trust: 82 and one point for each photo, up to 18 points.
pub open spec fn community_trust_for(photos: u32) -> u32 {
    (82 + capped(photos as int, 18)) as u32
}

/// Ten years after `issue_date`, and the end of time where that lies beyond
/// it.
pub open spec fn expiry_of(issue_date: u64) -> u64 {
    if issue_date + TEN_YEARS_NS > u64::MAX {
        u64::MAX
    } else {
        (issue_date + TEN_YEARS_NS) as u64
    }
}

/// The identifier of a certificate for `session_id` with the random suffix
/// `suffix`.
pub open spec fn certificate_id_text(session_id: Seq<char>, suffix: Seq<char>) -> Seq<char> {
    "CERT-"@ + uppercase_of(session_id) + "-"@ + suffix
}

/// The verification hash: the digest over session, owner, title, caller and
/// time, in hexadecimal behind `0x`.
pub open spec fn verification_hash_text(
    session_id: Seq<char>,
    username: Seq<char>,
    art_title: Seq<char>,
    caller: Seq<char>,
    now: u64,
) -> Seq<char> {
    "0x"@ + sha256_hex(
        encode_utf8(session_id + username + art_title + caller + decimal(now as nat)),
    )
}

/// The ledger transaction hash: the digest over certificate identifier,
/// verification hash, caller and time, in hexadecimal behind `0x`.
pub open spec fn ledger_tx_text(
    certificate_id: Seq<char>,
    verification_hash: Seq<char>,
    caller: Seq<char>,
    now: u64,
) -> Seq<char> {
    "0x"@ + sha256_hex(
        encode_utf8(certificate_id + verification_hash + caller + decimal(now as nat)),
    )
}

/// Where a certificate can be verified.
pub open spec fn verification_url_text(certificate_id: Seq<char>) -> Seq<char> {
    "https://originstamp.ic0.app/verify/"@ + certificate_id
}

/// A duration in minutes as hours and minutes.
pub open spec fn duration_text(minutes: u32) -> Seq<char> {
    decimal((minutes / 60) as nat) + " hours "@ + decimal((minutes % 60) as nat) + " minutes"@
}

/// A size in whole megabytes with two decimals.
pub open spec fn file_size_text(megabytes: u32) -> Seq<char> {
    decimal(megabytes as nat) + ".00 MB"@
}

/// The certificate that is issued on `approval` to the caller with the
/// textual identity `caller` at `now`, with the random suffix `suffix` in
/// its identifier.
pub open spec fn issued_certificate(
    approval: ApprovalView,
    caller: Seq<char>,
    now: u64,
    suffix: Seq<char>,
) -> CertificateView {
    let request = approval.request;
    let certificate_id = certificate_id_text(request.session_id, suffix);
    let verification_hash = verification_hash_text(
        request.session_id,
        request.username,
        request.art_title,
        caller,
        now,
    );
    CertificateView {
        certificate_id,
        session_id: request.session_id,
        username: request.username,
        art_title: request.art_title,
        description: request.description,
        issue_date: now,
        expiry_date: expiry_of(now),
        verification_hash,
        blockchain_tx: ledger_tx_text(certificate_id, verification_hash, caller, now),
        qr_code_data: verification_url_text(certificate_id),
        verification_url: verification_url_text(certificate_id),
        certificate_type: "standard"@,
        verification_score: verification_score_for(approval.photo_count),
        authenticity_rating: authenticity_rating_for(approval.photo_count),
        provenance_score: provenance_score_for(approval.photo_count),
        community_trust: community_trust_for(approval.photo_count),
        certificate_status: CertificateStatus::Active,
        issuer: "OriginStamp"@,
        blockchain: "Internet Computer"@,
        token_standard: "ICP-721"@,
        metadata: CertificateMetadataView {
            creation_duration: duration_text(request.creation_duration),
            total_actions: request.photo_count,
            file_size: file_size_text(approval.total_size_mb),
            file_format: request.file_format,
            creation_tools: request.creation_tools,
        },
        nft_link: None,
    }
}

/// Builds the identifier of a certificate for `session_id` with the suffix
/// `suffix`.
pub fn certificate_identifier(session_id: &str, suffix: &str) -> (id: String)
    ensures
        id@ == certificate_id_text(session_id@, suffix@),
{
    let upper = to_uppercase(session_id);
    let mut id = String::from_str("CERT-");
    id.append(upper.as_str());
    id.append("-");
    id.append(suffix);
    id
}

/// `base` and `bonus`, where `bonus` counts up to `cap` only.
fn score(base: u32, bonus: u32, cap: u32) -> (r: u32)
    requires
        base + cap <= u32::MAX,
    ensures
        r == base + capped(bonus as int, cap as int),
{
    if bonus < cap {
        base + bonus
    } else {
        base + cap
    }
}

/// Builds the certificate for an approved request.
pub fn assemble_certificate(approval: Approval, caller: &String, now: u64, suffix: &String) -> (c:
    Certificate)
    ensures
        c@ == issued_certificate(approval@, caller@, now, suffix@),
{
    let request = approval.request;
    let photos: u32 = approval.photo_count;
    let time_text = u64_to_decimal(now);

    let certificate_id = certificate_identifier(request.session_id.as_str(), suffix.as_str());

    let mut verification_data = request.session_id.clone();
    verification_data.append(request.username.as_str());
    verification_data.append(request.art_title.as_str());
    verification_data.append(caller.as_str());
    verification_data.append(time_text.as_str());
    let mut verification_hash = String::from_str("0x");
    verification_hash.append(text_digest_hex(&verification_data).as_str());

    let mut tx_data = certificate_id.clone();
    tx_data.append(verification_hash.as_str());
    tx_data.append(caller.as_str());
    tx_data.append(time_text.as_str());
    let mut blockchain_tx = String::from_str("0x");
    blockchain_tx.append(text_digest_hex(&tx_data).as_str());

    let mut verification_url = String::from_str("https://originstamp.ic0.app/verify/");
    verification_url.append(certificate_id.as_str());

    let mut creation_duration = u64_to_decimal((request.creation_duration / 60) as u64);
    creation_duration.append(" hours ");
    creation_duration.append(u64_to_decimal((request.creation_duration % 60) as u64).as_str());
    creation_duration.append(" minutes");

    let mut file_size = u64_to_decimal(approval.total_size_mb as u64);
    file_size.append(".00 MB");

    let doubled: u32 = if photos < 8 {
        2 * photos
    } else {
        15
    };
    let expiry_date: u64 = if now > u64::MAX - TEN_YEARS_NS {
        u64::MAX
    } else {
        now + TEN_YEARS_NS
    };

    Certificate {
        certificate_id,
        session_id: request.session_id,
        username: request.username,
        art_title: request.art_title,
        description: request.description,
        issue_date: now,
        expiry_date,
        verification_hash,
        blockchain_tx,
        qr_code_data: verification_url.clone(),
        verification_url,
        certificate_type: String::from_str("standard"),
        verification_score: score(85, doubled, 15),
        authenticity_rating: score(90, photos, 10),
        provenance_score: score(88, photos, 12),
        community_trust: score(82, photos, 18),
        certificate_status: CertificateStatus::Active,
        issuer: String::from_str("OriginStamp"),
        blockchain: String::from_str("Internet Computer"),
        token_standard: String::from_str("ICP-721"),
        metadata: CertificateMetadata {
            creation_duration,
            total_actions: request.photo_count,
            file_size,
            file_format: request.file_format,
            creation_tools: request.creation_tools,
        },
        nft_link: None,
    }
}

/// Feeds `value` to `state` through the `Hash` impl of `u64` in the standard
/// library, which writes the value's bytes in the machine's byte order;
/// nothing is claimed of the hasher afterwards.
#[verifier::external_body]
fn hash_u64(state: &mut DefaultHasher, value: u64) {
    std::hash::Hash::hash(&value, state)
}

/// All bytes folded with exclusive or.
pub open spec fn xor_fold(bytes: Seq<u8>) -> u64
    decreases bytes.len(),
{
    if bytes.len() == 0 {
        0
    } else {
        xor_fold(bytes.drop_last()) ^ (bytes.last() as u64)
    }
}

/// The seed that sets apart calls of one caller at one time from those of
/// another: the time, with the caller's bytes folded in.
pub fn entropy_seed(context: &CallContext) -> (seed: u64)
    ensures
        seed == context.time ^ xor_fold(context.caller@),
{
    let bytes = context.caller.as_bytes();
    let mut folded: u64 = 0;
    let mut i: usize = 0;
    assert(bytes@.subrange(0, 0) =~= Seq::<u8>::empty());
    while i < bytes.len()
        invariant
            i <= bytes.len(),
            folded == xor_fold(bytes@.subrange(0, i as int)),
        decreases bytes.len() - i,
    {
        proof {
            let next = bytes@.subrange(0, i as int + 1);
            assert(next.drop_last() =~= bytes@.subrange(0, i as int));
            assert(next.last() == bytes@[i as int]);
        }
        folded = folded ^ (bytes[i] as u64);
        i = i + 1;
    }
    assert(bytes@.subrange(0, bytes.len() as int) =~= bytes@);
    context.time ^ folded
}

/// The shape of a random suffix: sixteen lower-case hexadecimal digits.
pub open spec fn is_random_suffix(suffix: Seq<char>) -> bool {
    exists|h: u64| suffix == hex_fixed(h as nat, 16)
}

/// A number that sets certificate identifiers apart: a hash over the time,
/// the caller and a seed drawn from both. The hash differs between
/// machines, so nothing is promised of the number.
pub fn secure_random_number(context: &CallContext) -> u64 {
    let seed = entropy_seed(context);
    let mut hasher = DefaultHasher::new();
    hash_u64(&mut hasher, context.time);
    context.caller.feed(&mut hasher);
    hash_u64(&mut hasher, seed);
    std::hash::Hasher::finish(&hasher)
}

/// A suffix that sets certificate identifiers apart: the number of
/// [`secure_random_number`] as sixteen hexadecimal digits. Only the shape of
/// the suffix is promised.
pub fn generate_secure_random_id(context: &CallContext) -> (suffix: String)
    ensures
        is_random_suffix(suffix@),
{
    u64_to_hex16(secure_random_number(context))
}

/// The number `k` steps after `start`, counting round in 64 bits.
pub open spec fn stepped(start: u64, k: nat) -> nat {
    ((start + k) % 0x1_0000_0000_0000_0000) as nat
}

/// The identifier that the session gets with the suffix `k` steps after
/// `start`.
pub open spec fn candidate_id(session_id: Seq<char>, start: u64, k: nat) -> Seq<char> {
    certificate_id_text(session_id, hex_fixed(stepped(start, k), 16))
}

/// `k` is the least number of steps after `start` at which the session's
/// identifier is free: the ledger holds a certificate under the identifier
/// of every earlier step and none under this one.
pub open spec fn is_first_free(
    ledger: Seq<(Seq<char>, CertificateView)>,
    session_id: Seq<char>,
    start: u64,
    k: nat,
) -> bool {
    &&& lookup(ledger, candidate_id(session_id, start, k)) is None
    &&& forall|j: nat| j < k ==> lookup(ledger, #[trigger] candidate_id(session_id, start, j)) is Some
}

/// Identifiers of one session at different steps differ.
pub proof fn lemma_candidates_differ(session_id: Seq<char>, start: u64, i: nat, j: nat)
    requires
        i < j < 0x1_0000_0000_0000_0000,
    ensures
        candidate_id(session_id, start, i) != candidate_id(session_id, start, j),
{
    let a = stepped(start, i);
    let b = stepped(start, j);
    assert(a != b);
    if candidate_id(session_id, start, i) == candidate_id(session_id, start, j) {
        let beginning = "CERT-"@ + uppercase_of(session_id) + "-"@;
        lemma_same_beginning(beginning, hex_fixed(a, 16), hex_fixed(b, 16));
        lemma_pow16_of_sixteen();
        lemma_hex_fixed_tells_apart(a, b, 16);
    }
}

/// Where the identifiers of the first `m` steps are all taken, the ledger
/// holds at least `m` certificates.
proof fn lemma_taken_candidates_fit(
    ledger: Seq<(Seq<char>, CertificateView)>,
    session_id: Seq<char>,
    start: u64,
    m: nat,
)
    requires
        m <= 0x1_0000_0000_0000_0000,
        forall|j: nat| j < m ==> lookup(ledger, #[trigger] candidate_id(session_id, start, j)) is Some,
    ensures
        m <= ledger.len(),
{
    let keys = Seq::new(m, |j: int| candidate_id(session_id, start, j as nat));
    assert forall|i: int, j: int| 0 <= i < j < keys.len() implies keys[i] != keys[j] by {
        lemma_candidates_differ(session_id, start, i as nat, j as nat);
    }
    assert forall|i: int| 0 <= i < keys.len() implies position(ledger, #[trigger] keys[i]) is Some by {
        assert(lookup(ledger, candidate_id(session_id, start, i as nat)) is Some);
    }
    lemma_present_keys_fit(ledger, keys);
}

/// The number `k` steps after `start`, counting round in 64 bits.
fn step(start: u64, k: u64) -> (h: u64)
    ensures
        h == stepped(start, k as nat),
{
    if k <= u64::MAX - start {
        start + k
    } else {
        k - (u64::MAX - start) - 1
    }
}

/// A suffix under which the ledger holds no certificate of the session yet:
/// `start` as sixteen hexadecimal digits, or the first number after it whose
/// identifier is free. The ledger cannot hold all of them, so one is found.
pub fn free_suffix(ledger: &CertificateLedger, session_id: &String, start: u64) -> (suffix: String)
    ensures
        is_random_suffix(suffix@),
        lookup(ledger@, certificate_id_text(session_id@, suffix@)) is None,
        exists|k: nat|
            is_first_free(ledger@, session_id@, start, k) && suffix@ == hex_fixed(
                stepped(start, k),
                16,
            ),
{
    let n: usize = ledger.len();
    let mut k: usize = 0;
    loop
        invariant
            k <= n == ledger@.len(),
            forall|j: nat|
                j < k ==> lookup(ledger@, #[trigger] candidate_id(session_id@, start, j)) is Some,
        decreases n - k,
    {
        let h = step(start, k as u64);
        let suffix = u64_to_hex16(h);
        let id = certificate_identifier(session_id.as_str(), suffix.as_str());
        if !ledger.contains_key(&id) {
            assert(is_first_free(ledger@, session_id@, start, k as nat));
            return suffix;
        }
        proof {
            assert forall|j: nat| j < k + 1 implies lookup(
                ledger@,
                #[trigger] candidate_id(session_id@, start, j),
            ) is Some by {}
            lemma_taken_candidates_fit(ledger@, session_id@, start, (k + 1) as nat);
        }
        k = k + 1;
    }
}

/// Why an issuance fails, if it fails: the caller is not authenticated or
/// not authorized, the session's lock is held, or a check of
/// [`review_fault`] fails.
pub open spec fn issuance_fault(
    permissions: Seq<(Seq<char>, UserPermissionsView)>,
    locks: Map<Seq<char>, u64>,
    sessions: Seq<(Seq<char>, PhysicalArtSessionView)>,
    subscriptions: Seq<(Seq<char>, SubscriptionTier)>,
    caller: Seq<u8>,
    canister: Seq<u8>,
    now: u64,
    request: CreateCertificateRequestView,
) -> Option<IssuanceError> {
    if !is_authenticated(caller, canister) {
        Some(IssuanceError::Unauthenticated)
    } else if !is_authorized(permissions, request.username) {
        Some(IssuanceError::Unauthorized)
    } else if is_held(locks, request.session_id, now) {
        Some(IssuanceError::Busy)
    } else {
        review_fault(sessions, subscriptions, request)
    }
}

/// An issuance that got as far as taking the lock: it was not turned away
/// for its caller or for a lock that is held.
pub open spec fn took_lock(fault: Option<IssuanceError>) -> bool {
    fault != Some(IssuanceError::Unauthenticated) && fault != Some(IssuanceError::Unauthorized)
        && fault != Some(IssuanceError::Busy)
}

/// Issues a certificate for the session that `request` names.
///
/// The steps, each of which may end the issuance: authenticate the caller;
/// check its permission record; take the session's issuance lock; validate
/// and sanitize the request; find the session and check its state and
/// owner; check the quotas of the owner's tier; check the photo count. Then
/// the certificate is built under an identifier that the ledger does not
/// hold yet, appended to the ledger and returned: no certificate is ever
/// replaced. The lock is given back on every path that took it, and a failed
/// issuance leaves the ledger as it was.
pub fn generate_certificate(
    ledger: &mut CertificateLedger,
    locks: &mut IssuanceLock,
    permissions: &PermissionRegistry,
    sessions: &SessionStore,
    subscriptions: &SubscriptionRegistry,
    context: &CallContext,
    request: CreateCertificateRequest,
) -> (r: Result<Certificate, IssuanceError>)
    ensures
        match issuance_fault(
            permissions@,
            old(locks)@,
            sessions@,
            subscriptions@,
            context.caller@,
            context.canister@,
            context.time,
            request@,
        ) {
            Some(e) => r == Err::<Certificate, IssuanceError>(e) && final(ledger)@ == old(ledger)@,
            None => r is Ok && (exists|suffix: Seq<char>|
                is_random_suffix(suffix) && r->Ok_0@ == issued_certificate(
                    approval_of(sessions@, request@),
                    principal_text_of(context.caller@),
                    context.time,
                    suffix,
                )) && lookup(old(ledger)@, r->Ok_0@.certificate_id) is None && final(ledger)@
                == old(ledger)@.push((r->Ok_0@.certificate_id, r->Ok_0@)),
        },
        distinct_keys(old(ledger)@) ==> distinct_keys(final(ledger)@),
        final(locks)@ == if took_lock(
            issuance_fault(
                permissions@,
                old(locks)@,
                sessions@,
                subscriptions@,
                context.caller@,
                context.canister@,
                context.time,
                request@,
            ),
        ) {
            old(locks)@.remove(request@.session_id)
        } else {
            old(locks)@
        },
{
    let caller = match authenticate_user(context) {
        Err(_) => {
            return Err(IssuanceError::Unauthenticated);
        },
        Ok(text) => text,
    };
    if authorize_certificate_creation(permissions, &request.username).is_err() {
        return Err(IssuanceError::Unauthorized);
    }
    if locks.acquire(&request.session_id, context.time).is_err() {
        return Err(IssuanceError::Busy);
    }
    assert(locks@.remove(request@.session_id) =~= old(locks)@.remove(request@.session_id));
    let approval = match review_request(sessions, subscriptions, &request) {
        Err(e) => {
            locks.release(&request.session_id);
            return Err(e);
        },
        Ok(a) => a,
    };
    let suffix = free_suffix(ledger, &approval.request.session_id, secure_random_number(context));
    let certificate = assemble_certificate(approval, &caller, context.time, &suffix);
    ledger.insert(certificate.certificate_id.clone(), certificate.clone());
    locks.release(&request.session_id);
    Ok(certificate)
}

/// The certificate with the given identifier.
pub fn get_certificate_by_id(ledger: &CertificateLedger, certificate_id: &String) -> (r: Option<
    Certificate,
>)
    ensures
        match lookup(ledger@, certificate_id@) {
            Some(c) => r is Some && r->0@ == c,
            None => r is None,
        },
{
    match ledger.get(certificate_id) {
        Some(c) => Some(c.clone()),
        None => None,
    }
}

/// The certificates of one owner, as a predicate.
pub open spec fn owned_by(username: Seq<char>) -> spec_fn(CertificateView) -> bool {
    |c: CertificateView| c.username == username
}

/// The certificates of `username`, in the order of issuance.
pub fn get_user_certificates(ledger: &CertificateLedger, username: &String) -> (r: Vec<Certificate>)
    ensures
        r.deep_view() == values_of(ledger@).filter(owned_by(username@)),
{
    let mut out: Vec<Certificate> = Vec::new();
    let mut i: usize = 0;
    let ghost all = values_of(ledger@);
    assert(all.subrange(0, 0) =~= Seq::<CertificateView>::empty());
    assert(out.deep_view() =~= Seq::<CertificateView>::empty());
    while i < ledger.len()
        invariant
            i <= ledger@.len(),
            all == values_of(ledger@),
            out.deep_view() == all.subrange(0, i as int).filter(owned_by(username@)),
        decreases ledger@.len() - i,
    {
        let c = ledger.value_at(i);
        proof {
            let a = all.subrange(0, i as int);
            let b = all.subrange(0, i as int + 1);
            assert(b =~= a.push(c@));
            assert(b.drop_last() =~= a);
            reveal(Seq::filter);
        }
        if c.username == *username {
            let ghost before = out.deep_view();
            out.push(c.clone());
            assert(out.deep_view() =~= before.push(c@));
        }
        i = i + 1;
    }
    assert(all.subrange(0, ledger@.len() as int) =~= all);
    out
}

/// Number of certificates in the ledger.
pub fn get_certificate_count(ledger: &CertificateLedger) -> (n: usize)
    ensures
        n == ledger@.len(),
{
    ledger.len()
}

/// A certificate passes verification at `now`: it has not expired and is
/// active.
pub open spec fn is_valid_at(certificate: CertificateView, now: u64) -> bool {
    now <= certificate.expiry_date && certificate.certificate_status == CertificateStatus::Active
}

/// The particulars of an expired certificate.
pub open spec fn expired_details(expiry_date: u64, now: u64) -> Seq<char> {
    "{\"error\": \"Certificate expired\", \"expiry_date\": "@ + decimal(expiry_date as nat)
        + ", \"current_time\": "@ + decimal(now as nat) + "}"@
}

/// The particulars of a certificate that is not active.
pub open spec fn inactive_details(status: CertificateStatus) -> Seq<char> {
    "{\"error\": \"Certificate is not active\", \"status\": \""@ + status.name() + "\"}"@
}

/// The particulars of a certificate that passed, with its identifiers
/// echoed.
pub open spec fn verified_details(certificate: CertificateView, now: u64) -> Seq<char> {
    "{\"verified\": true, \"timestamp\": "@ + decimal(now as nat) + ", \"blockchain\": \""@
        + certificate.blockchain + "\", \"certificate_id\": \""@ + certificate.certificate_id
        + "\", \"verification_hash\": \""@ + certificate.verification_hash
        + "\", \"blockchain_tx\": \""@ + certificate.blockchain_tx + "\"}"@
}

/// What verifying `certificate` at `now` finds: expiry is looked at first,
/// then the status.
pub open spec fn verification_of(certificate: CertificateView, now: u64) -> VerificationResultView {
    if now > certificate.expiry_date {
        VerificationResultView {
            valid: false,
            score: 0,
            details: expired_details(certificate.expiry_date, now),
        }
    } else if certificate.certificate_status != CertificateStatus::Active {
        VerificationResultView {
            valid: false,
            score: 0,
            details: inactive_details(certificate.certificate_status),
        }
    } else {
        VerificationResultView {
            valid: true,
            score: certificate.verification_score,
            details: verified_details(certificate, now),
        }
    }
}

/// Verifies the certificate with the given identifier at `now`.
///
/// The result is valid exactly when the certificate has not expired and is
/// active; otherwise its score is zero. The ledger is only read.
pub fn verify_certificate(ledger: &CertificateLedger, now: u64, certificate_id: &String) -> (r:
    Result<VerificationResult, NotFound>)
    ensures
        match lookup(ledger@, certificate_id@) {
            None => r is Err,
            Some(c) => r is Ok && r->Ok_0@ == verification_of(c, now) && (r->Ok_0.valid
                <==> is_valid_at(c, now)) && (!r->Ok_0.valid ==> r->Ok_0.score == 0),
        },
{
    let certificate = match ledger.get(certificate_id) {
        None => {
            return Err(NotFound);
        },
        Some(c) => c,
    };
    if now > certificate.expiry_date {
        let mut details = String::from_str("{\"error\": \"Certificate expired\", \"expiry_date\": ");
        details.append(u64_to_decimal(certificate.expiry_date).as_str());
        details.append(", \"current_time\": ");
        details.append(u64_to_decimal(now).as_str());
        details.append("}");
        return Ok(VerificationResult { valid: false, score: 0, details });
    }
    match certificate.certificate_status {
        CertificateStatus::Active => {},
        _ => {
            let mut details = String::from_str(
                "{\"error\": \"Certificate is not active\", \"status\": \"",
            );
            details.append(certificate.certificate_status.label().as_str());
            details.append("\"}");
            return Ok(VerificationResult { valid: false, score: 0, details });
        },
    }
    let mut details = String::from_str("{\"verified\": true, \"timestamp\": ");
    details.append(u64_to_decimal(now).as_str());
    details.append(", \"blockchain\": \"");
    details.append(certificate.blockchain.as_str());
    details.append("\", \"certificate_id\": \"");
    details.append(certificate.certificate_id.as_str());
    details.append("\", \"verification_hash\": \"");
    details.append(certificate.verification_hash.as_str());
    details.append("\", \"blockchain_tx\": \"");
    details.append(certificate.blockchain_tx.as_str());
    details.append("\"}");
    Ok(VerificationResult { valid: true, score: certificate.verification_score, details })
}

/// Token generation has moved to the minting module.
#[derive(Clone, Copy, Debug, PartialEq, Eq, Structural)]
pub struct MovedToMinting;

/// Refuses: tokens are minted by `mint_certificate_nft`.
pub fn generate_nft_for_certificate(_certificate_id: &String) -> (r: Result<
    NFTGenerationResult,
    MovedToMinting,
>)
    ensures
        r is Err,
{
    Err(MovedToMinting)
}

/// Has nothing to hand out: token metadata comes from the token ledger.
pub fn get_nft_metadata(_certificate_id: &String) -> (r: Option<String>)
    ensures
        r is None,
{
    None
}

/// The certificate with the given identifier, for minting.
pub fn get_certificate_for_nft_minting(ledger: &CertificateLedger, certificate_id: &String) -> (r:
    Option<Certificate>)
    ensures
        match lookup(ledger@, certificate_id@) {
            Some(c) => r is Some && r->0@ == c,
            None => r is None,
        },
{
    get_certificate_by_id(ledger, certificate_id)
}

/// Why a token cannot be recorded on a certificate, if it cannot.
pub open spec fn link_fault(
    ledger: Seq<(Seq<char>, CertificateView)>,
    caller: Seq<u8>,
    canister: Seq<u8>,
    certificate_id: Seq<char>,
) -> Option<LinkError> {
    if !is_authenticated(caller, canister) {
        Some(LinkError::Unauthenticated)
    } else if lookup(ledger, certificate_id) is None {
        Some(LinkError::NotFound)
    } else {
        None
    }
}

/// `certificate` with a token recorded on it.
pub open spec fn linked(certificate: CertificateView, token_id: u64, token_uri: Seq<char>) -> CertificateView {
    CertificateView { nft_link: Some(NftLinkView { token_id, token_uri }), ..certificate }
}

/// Records the token `token_id` on the certificate with the given
/// identifier, for an authenticated caller. Nothing else in the ledger
/// changes, and nothing at all on failure.
pub fn update_certificate_nft_info(
    ledger: &mut CertificateLedger,
    context: &CallContext,
    certificate_id: String,
    token_id: u64,
    token_uri: String,
) -> (r: Result<bool, LinkError>)
    ensures
        match link_fault(old(ledger)@, context.caller@, context.canister@, certificate_id@) {
            Some(e) => r == Err::<bool, LinkError>(e) && final(ledger)@ == old(ledger)@,
            None => r == Ok::<bool, LinkError>(true) && final(ledger)@ == upsert(
                old(ledger)@,
                certificate_id@,
                linked(lookup(old(ledger)@, certificate_id@)->0, token_id, token_uri@),
            ),
        },
{
    if authenticate_user(context).is_err() {
        return Err(LinkError::Unauthenticated);
    }
    let mut certificate = match ledger.get(&certificate_id) {
        None => {
            return Err(LinkError::NotFound);
        },
        Some(c) => c.clone(),
    };
    certificate.nft_link = Some(NftLink { token_id, token_uri });
    ledger.insert(certificate_id, certificate);
    Ok(true)
}

} // verus!
