use origin_stamp::certificates::{
    assemble_certificate, authorize_certificate_creation, certificate_identifier, free_suffix,
    generate_certificate, generate_secure_random_id, get_certificate_by_id,
    get_certificate_count, get_user_certificates, review_request, secure_random_number, Approval,
    CertificateLedger,
};
use origin_stamp::error::{Field, IssuanceError, QuotaKind, Reason, ValidationError};
use origin_stamp::identity::{CallContext, PrincipalId};
use origin_stamp::lock::{IssuanceLock, GRACE_WINDOW_NS};
use origin_stamp::physical_art::SessionStore;
use origin_stamp::store::Registry;
use origin_stamp::subscription::{
    initialize_admin, PermissionRegistry, SubscriptionRegistry, SubscriptionTier, UserPermissions,
    UserRole,
};
use origin_stamp::types::{
    CertificateStatus, CreateCertificateRequest, PhysicalArtSession, SessionStatus,
};

const NOW: u64 = 1_700_000_000_000_000_000;

struct World {
    ledger: CertificateLedger,
    locks: IssuanceLock,
    permissions: PermissionRegistry,
    sessions: SessionStore,
    subscriptions: SubscriptionRegistry,
}

fn context(time: u64) -> CallContext {
    CallContext {
        caller: PrincipalId::from_bytes(vec![1, 2, 3]).unwrap(),
        canister: PrincipalId::from_bytes(vec![9, 9]).unwrap(),
        time,
    }
}

fn session(id: &str, owner: &str, photos: usize, status: SessionStatus) -> PhysicalArtSession {
    PhysicalArtSession {
        session_id: id.to_string(),
        username: owner.to_string(),
        art_title: "Sunset".to_string(),
        description: "Oil on canvas".to_string(),
        uploaded_photos: (1..=photos).map(|i| format!("p{i}.jpg")).collect(),
        status,
        created_at: 1,
        updated_at: 2,
    }
}

fn world() -> World {
    let mut sessions = Registry::new();
    sessions.insert("sess-1".to_string(), session("sess-1", "alice", 3, SessionStatus::Active));
    sessions.insert("sess-6".to_string(), session("sess-6", "frank", 6, SessionStatus::Active));
    sessions.insert("draft".to_string(), session("draft", "alice", 3, SessionStatus::Draft));
    sessions.insert("closed".to_string(), session("closed", "alice", 3, SessionStatus::Closed));
    sessions.insert("upl".to_string(), session("upl", "alice", 2, SessionStatus::Uploading));
    let mut subscriptions = Registry::new();
    subscriptions.insert("alice".to_string(), SubscriptionTier::Basic);
    World {
        ledger: Registry::new(),
        locks: IssuanceLock::new(),
        permissions: Registry::new(),
        sessions,
        subscriptions,
    }
}

fn request(session_id: &str, username: &str, photo_count: u32) -> CreateCertificateRequest {
    CreateCertificateRequest {
        session_id: session_id.to_string(),
        username: username.to_string(),
        art_title: "Sunset <b>!".to_string(),
        description: "Oil on canvas".to_string(),
        photo_count,
        creation_duration: 135,
        file_format: "PNG".to_string(),
        creation_tools: vec!["Brush".to_string()],
        file_sizes: vec![],
    }
}

fn issue(
    w: &mut World,
    ctx: &CallContext,
    req: CreateCertificateRequest,
) -> Result<origin_stamp::types::Certificate, IssuanceError> {
    generate_certificate(
        &mut w.ledger,
        &mut w.locks,
        &w.permissions,
        &w.sessions,
        &w.subscriptions,
        ctx,
        req,
    )
}

#[test]
fn free_tier_with_six_photos_exceeds_quota() {
    let mut w = world();
    let r = issue(&mut w, &context(NOW), request("sess-6", "frank", 6));
    assert_eq!(
        r,
        Err(IssuanceError::QuotaExceeded {
            kind: QuotaKind::Photos,
            current: 6,
            limit: 5,
            suggested_tier: SubscriptionTier::Basic,
        })
    );
    assert_eq!(get_certificate_count(&w.ledger), 0);
    assert_eq!(w.locks.taken_at(&"sess-6".to_string()), None);
}

#[test]
fn matching_photo_count_issues_active_certificate() {
    let mut w = world();
    let cert = issue(&mut w, &context(NOW), request("sess-1", "alice", 3)).unwrap();
    assert_eq!(cert.certificate_status, CertificateStatus::Active);
    assert_eq!(cert.nft_link, None);
    assert!(cert.verification_score >= 85);
    assert_eq!(cert.verification_score, 91);
    assert_eq!(cert.authenticity_rating, 93);
    assert_eq!(cert.provenance_score, 91);
    assert_eq!(cert.community_trust, 85);
    assert_eq!(cert.session_id, "sess-1");
    assert_eq!(cert.username, "alice");
    assert_eq!(cert.art_title, "Sunset b!");
    assert_eq!(cert.description, "Oil on canvas");
    assert_eq!(cert.issue_date, NOW);
    assert_eq!(cert.expiry_date, 2_015_360_000_000_000_000);
    assert_eq!(
        cert.verification_hash,
        "0x5ee0663f66489fb5f8adf69cc47991780167302e7677930b659c539f7b6ce3ed"
    );
    assert!(cert.certificate_id.starts_with("CERT-SESS-1-"));
    let suffix = &cert.certificate_id["CERT-SESS-1-".len()..];
    assert_eq!(suffix.len(), 16);
    assert!(suffix.chars().all(|c| c.is_ascii_digit() || ('a'..='f').contains(&c)));
    assert_eq!(
        cert.verification_url,
        format!("https://originstamp.ic0.app/verify/{}", cert.certificate_id)
    );
    assert_eq!(cert.qr_code_data, cert.verification_url);
    assert_eq!(cert.certificate_type, "standard");
    assert_eq!(cert.issuer, "OriginStamp");
    assert_eq!(cert.blockchain, "Internet Computer");
    assert_eq!(cert.token_standard, "ICP-721");
    assert_eq!(cert.metadata.creation_duration, "2 hours 15 minutes");
    assert_eq!(cert.metadata.total_actions, 3);
    assert_eq!(cert.metadata.file_size, "15.00 MB");
    assert_eq!(cert.metadata.file_format, "PNG");
    assert_eq!(cert.metadata.creation_tools, vec!["Brush".to_string()]);
    assert_eq!(cert.blockchain_tx.len(), 66);
    assert!(cert.blockchain_tx.starts_with("0x"));

    assert_eq!(get_certificate_count(&w.ledger), 1);
    assert_eq!(get_certificate_by_id(&w.ledger, &cert.certificate_id), Some(cert.clone()));
    assert_eq!(get_user_certificates(&w.ledger, &"alice".to_string()), vec![cert]);
    assert_eq!(get_user_certificates(&w.ledger, &"bob".to_string()), vec![]);
    assert_eq!(w.locks.taken_at(&"sess-1".to_string()), None);
}

#[test]
fn assembled_certificate_has_exact_hashes() {
    let approval = Approval {
        request: CreateCertificateRequest {
            art_title: "Sunset b!".to_string(),
            ..request("sess-1", "alice", 3)
        },
        photo_count: 3,
        total_size_mb: 15,
    };
    let cert = assemble_certificate(
        approval,
        &"kw6ia-hibai-bq".to_string(),
        NOW,
        &"0123456789abcdef".to_string(),
    );
    assert_eq!(cert.certificate_id, "CERT-SESS-1-0123456789abcdef");
    assert_eq!(
        cert.verification_hash,
        "0x5ee0663f66489fb5f8adf69cc47991780167302e7677930b659c539f7b6ce3ed"
    );
    assert_eq!(
        cert.blockchain_tx,
        "0xd395acfa420999d5fc77359a3d80c64d88ba319e72cfd1314ca8a3e96d4bb06c"
    );
    assert_eq!(
        cert.verification_url,
        "https://originstamp.ic0.app/verify/CERT-SESS-1-0123456789abcdef"
    );
}

#[test]
fn scores_are_capped() {
    let approval = Approval { request: request("s", "u", 100), photo_count: 100, total_size_mb: 0 };
    let cert = assemble_certificate(approval, &"c".to_string(), 0, &"0".repeat(16));
    assert_eq!(cert.verification_score, 100);
    assert_eq!(cert.authenticity_rating, 100);
    assert_eq!(cert.provenance_score, 100);
    assert_eq!(cert.community_trust, 100);
    assert_eq!(cert.metadata.file_size, "0.00 MB");
    let approval = Approval { request: request("s", "u", 1), photo_count: 0, total_size_mb: 7 };
    let cert = assemble_certificate(approval, &"c".to_string(), 0, &"0".repeat(16));
    assert_eq!(cert.verification_score, 85);
    assert_eq!(cert.authenticity_rating, 90);
    assert_eq!(cert.provenance_score, 88);
    assert_eq!(cert.community_trust, 82);
    let approval = Approval { request: request("s", "u", 7), photo_count: 7, total_size_mb: 7 };
    let cert = assemble_certificate(approval, &"c".to_string(), 0, &"0".repeat(16));
    assert_eq!(cert.verification_score, 99);
    assert_eq!(cert.authenticity_rating, 97);
    assert_eq!(cert.provenance_score, 95);
    assert_eq!(cert.community_trust, 89);
}

#[test]
fn expiry_saturates_at_the_end_of_time() {
    let approval = Approval { request: request("s", "u", 1), photo_count: 1, total_size_mb: 5 };
    let cert = assemble_certificate(approval, &"c".to_string(), u64::MAX - 5, &"0".repeat(16));
    assert_eq!(cert.expiry_date, u64::MAX);
}

#[test]
fn identifier_upper_cases_the_session() {
    let approval =
        Approval { request: request("straße-x", "u", 1), photo_count: 1, total_size_mb: 5 };
    let cert = assemble_certificate(approval, &"c".to_string(), 0, &"f".repeat(16));
    assert_eq!(cert.certificate_id, "CERT-STRASSE-X-ffffffffffffffff");
}

#[test]
fn anonymous_caller_is_unauthenticated() {
    let mut w = world();
    let ctx = CallContext { caller: PrincipalId::anonymous(), ..context(NOW) };
    assert_eq!(
        issue(&mut w, &ctx, request("sess-1", "alice", 3)),
        Err(IssuanceError::Unauthenticated)
    );
    assert_eq!(w.locks.taken_at(&"sess-1".to_string()), None);
}

#[test]
fn the_service_itself_is_unauthenticated() {
    let mut w = world();
    let ctx = CallContext { caller: PrincipalId::from_bytes(vec![9, 9]).unwrap(), ..context(NOW) };
    assert_eq!(
        issue(&mut w, &ctx, request("sess-1", "alice", 3)),
        Err(IssuanceError::Unauthenticated)
    );
}

#[test]
fn forbidding_permission_record_is_unauthorized() {
    let mut w = world();
    w.permissions.insert(
        "alice".to_string(),
        UserPermissions {
            username: "alice".to_string(),
            role: UserRole::User,
            can_create_certificates: false,
            can_generate_nfts: true,
            can_modify_certificates: true,
            can_delete_certificates: true,
        },
    );
    assert_eq!(
        issue(&mut w, &context(NOW), request("sess-1", "alice", 3)),
        Err(IssuanceError::Unauthorized)
    );
    assert!(authorize_certificate_creation(&w.permissions, &"alice".to_string()).is_err());
    assert!(authorize_certificate_creation(&w.permissions, &"bob".to_string()).is_ok());
    initialize_admin(&mut w.permissions);
    assert!(authorize_certificate_creation(&w.permissions, &"admin_user".to_string()).is_ok());
}

#[test]
fn held_lock_makes_issuance_busy() {
    let mut w = world();
    assert!(w.locks.acquire(&"sess-1".to_string(), NOW).is_ok());
    let later = context(NOW + GRACE_WINDOW_NS - 1);
    assert_eq!(
        issue(&mut w, &later, request("sess-1", "alice", 3)),
        Err(IssuanceError::Busy)
    );
    assert_eq!(w.locks.taken_at(&"sess-1".to_string()), Some(NOW));
    assert_eq!(get_certificate_count(&w.ledger), 0);
}

#[test]
fn lapsed_lock_is_taken_over() {
    let mut w = world();
    assert!(w.locks.acquire(&"sess-1".to_string(), NOW).is_ok());
    let later = context(NOW + GRACE_WINDOW_NS);
    assert!(issue(&mut w, &later, request("sess-1", "alice", 3)).is_ok());
    assert_eq!(w.locks.taken_at(&"sess-1".to_string()), None);
}

#[test]
fn second_issuance_after_the_first_returned_is_not_busy() {
    let mut w = world();
    let first = issue(&mut w, &context(NOW), request("sess-1", "alice", 3)).unwrap();
    let second = issue(&mut w, &context(NOW + 1), request("sess-1", "alice", 3)).unwrap();
    assert_ne!(first.certificate_id, second.certificate_id);
    assert_eq!(get_certificate_count(&w.ledger), 2);
}

#[test]
fn invalid_request_releases_the_lock() {
    let mut w = world();
    let mut req = request("sess-1", "alice", 3);
    req.file_format = "BMP".to_string();
    assert_eq!(
        issue(&mut w, &context(NOW), req),
        Err(IssuanceError::Invalid(ValidationError {
            field: Field::FileFormat,
            reason: Reason::Unsupported
        }))
    );
    assert_eq!(w.locks.taken_at(&"sess-1".to_string()), None);
    assert!(issue(&mut w, &context(NOW + 1), request("sess-1", "alice", 3)).is_ok());
}

#[test]
fn unknown_session_is_not_found() {
    let mut w = world();
    assert_eq!(
        issue(&mut w, &context(NOW), request("nope", "alice", 3)),
        Err(IssuanceError::NotFound)
    );
    assert_eq!(w.locks.taken_at(&"nope".to_string()), None);
}

#[test]
fn draft_and_closed_sessions_are_in_invalid_state() {
    let mut w = world();
    assert_eq!(
        issue(&mut w, &context(NOW), request("draft", "alice", 3)),
        Err(IssuanceError::InvalidState)
    );
    assert_eq!(
        issue(&mut w, &context(NOW), request("closed", "alice", 3)),
        Err(IssuanceError::InvalidState)
    );
}

#[test]
fn uploading_session_is_accepted() {
    let mut w = world();
    let cert = issue(&mut w, &context(NOW), request("upl", "alice", 2)).unwrap();
    assert_eq!(cert.metadata.file_size, "10.00 MB");
    assert_eq!(cert.verification_score, 89);
}

#[test]
fn foreign_session_is_an_ownership_mismatch() {
    let mut w = world();
    assert_eq!(
        issue(&mut w, &context(NOW), request("sess-1", "bob", 3)),
        Err(IssuanceError::OwnershipMismatch)
    );
}

#[test]
fn estimated_size_exceeds_free_quota() {
    let mut w = world();
    w.sessions.insert("f3".to_string(), session("f3", "frank", 3, SessionStatus::Active));
    assert_eq!(
        issue(&mut w, &context(NOW), request("f3", "frank", 3)),
        Err(IssuanceError::QuotaExceeded {
            kind: QuotaKind::TotalSize,
            current: 15,
            limit: 10,
            suggested_tier: SubscriptionTier::Basic,
        })
    );
}

#[test]
fn size_is_estimated_from_the_photo_count_that_the_request_names() {
    let mut w = world();
    w.sessions.insert("f2".to_string(), session("f2", "frank", 2, SessionStatus::Active));
    w.sessions.insert("f3".to_string(), session("f3", "frank", 3, SessionStatus::Active));
    assert_eq!(
        issue(&mut w, &context(NOW), request("f2", "frank", 3)),
        Err(IssuanceError::QuotaExceeded {
            kind: QuotaKind::TotalSize,
            current: 15,
            limit: 10,
            suggested_tier: SubscriptionTier::Basic,
        })
    );
    assert_eq!(
        issue(&mut w, &context(NOW), request("f3", "frank", 2)),
        Err(IssuanceError::CountMismatch)
    );
    assert_eq!(
        issue(&mut w, &context(NOW), request("f2", "frank", 2)).unwrap().metadata.file_size,
        "10.00 MB"
    );
    assert_eq!(get_certificate_count(&w.ledger), 1);
}

#[test]
fn stated_sizes_take_precedence_over_the_estimate() {
    let mut w = world();
    w.sessions.insert("f3".to_string(), session("f3", "frank", 3, SessionStatus::Active));
    let mut req = request("f3", "frank", 3);
    req.file_sizes = vec![1_048_576, 2_097_152, 1_048_575];
    let cert = issue(&mut w, &context(NOW), req).unwrap();
    assert_eq!(cert.metadata.file_size, "3.00 MB");

    let mut req = request("f3", "frank", 3);
    req.file_sizes = vec![u64::MAX, u64::MAX, 11 * 1_048_576];
    assert_eq!(
        issue(&mut w, &context(NOW + 1), req),
        Err(IssuanceError::QuotaExceeded {
            kind: QuotaKind::TotalSize,
            current: 35_184_372_088_842,
            limit: 10,
            suggested_tier: SubscriptionTier::Basic,
        })
    );
}

#[test]
fn enterprise_quota_suggests_enterprise() {
    let mut w = world();
    w.subscriptions.insert("alice".to_string(), SubscriptionTier::Enterprise);
    let mut req = request("sess-1", "alice", 3);
    req.file_sizes = vec![101 * 1_048_576];
    assert_eq!(
        issue(&mut w, &context(NOW), req),
        Err(IssuanceError::QuotaExceeded {
            kind: QuotaKind::TotalSize,
            current: 101,
            limit: 100,
            suggested_tier: SubscriptionTier::Enterprise,
        })
    );
}

#[test]
fn stale_photo_count_is_a_count_mismatch() {
    let mut w = world();
    assert_eq!(
        issue(&mut w, &context(NOW), request("sess-1", "alice", 2)),
        Err(IssuanceError::CountMismatch)
    );
    assert_eq!(get_certificate_count(&w.ledger), 0);
}

#[test]
fn review_hands_on_what_it_found() {
    let w = world();
    let approval = review_request(&w.sessions, &w.subscriptions, &request("sess-1", "alice", 3))
        .unwrap();
    assert_eq!(approval.photo_count, 3);
    assert_eq!(approval.total_size_mb, 15);
    assert_eq!(approval.request.art_title, "Sunset b!");
}

#[test]
fn random_suffix_is_sixteen_hex_digits() {
    let suffix = generate_secure_random_id(&context(NOW));
    assert_eq!(suffix.len(), 16);
    assert!(suffix.chars().all(|c| c.is_ascii_digit() || ('a'..='f').contains(&c)));
    let other = generate_secure_random_id(&context(NOW + 1));
    assert_ne!(suffix, other);
}

fn stored(w: &mut World, id: &str) {
    let approval = Approval { request: request("s", "u", 1), photo_count: 1, total_size_mb: 5 };
    let mut cert = assemble_certificate(approval, &"c".to_string(), 0, &"0".repeat(16));
    cert.certificate_id = id.to_string();
    w.ledger.insert(id.to_string(), cert);
}

#[test]
fn identifier_is_built_from_session_and_suffix() {
    assert_eq!(certificate_identifier("sess-1", "00000000000000ff"), "CERT-SESS-1-00000000000000ff");
    assert_eq!(certificate_identifier("", ""), "CERT--");
}

#[test]
fn free_suffix_is_the_start_where_nothing_is_taken() {
    let w = world();
    assert_eq!(free_suffix(&w.ledger, &"s".to_string(), 5), "0000000000000005");
    assert_eq!(free_suffix(&w.ledger, &"s".to_string(), u64::MAX), "ffffffffffffffff");
}

#[test]
fn free_suffix_steps_past_taken_identifiers() {
    let mut w = world();
    stored(&mut w, "CERT-S-0000000000000005");
    stored(&mut w, "CERT-S-0000000000000006");
    stored(&mut w, "CERT-S-0000000000000008");
    stored(&mut w, "CERT-T-0000000000000007");
    assert_eq!(free_suffix(&w.ledger, &"s".to_string(), 5), "0000000000000007");
    assert_eq!(free_suffix(&w.ledger, &"s".to_string(), 6), "0000000000000007");
    assert_eq!(free_suffix(&w.ledger, &"s".to_string(), 8), "0000000000000009");
    assert_eq!(free_suffix(&w.ledger, &"s".to_string(), 4), "0000000000000004");
    assert_eq!(free_suffix(&w.ledger, &"t".to_string(), 7), "0000000000000008");
}

#[test]
fn free_suffix_counts_round() {
    let mut w = world();
    stored(&mut w, "CERT-S-ffffffffffffffff");
    stored(&mut w, "CERT-S-0000000000000000");
    assert_eq!(free_suffix(&w.ledger, &"s".to_string(), u64::MAX), "0000000000000001");
}

#[test]
fn issuance_never_replaces_a_certificate() {
    let mut w = world();
    let ctx = context(NOW);
    let start = secure_random_number(&ctx);
    assert_eq!(start, secure_random_number(&ctx));
    let taken = certificate_identifier("sess-1", &format!("{start:016x}"));
    stored(&mut w, &taken);
    let before = get_certificate_by_id(&w.ledger, &taken);
    let cert = issue(&mut w, &ctx, request("sess-1", "alice", 3)).unwrap();
    assert_ne!(cert.certificate_id, taken);
    assert_eq!(
        cert.certificate_id,
        certificate_identifier("sess-1", &format!("{:016x}", start.wrapping_add(1)))
    );
    assert_eq!(get_certificate_by_id(&w.ledger, &taken), before);
    assert_eq!(get_certificate_count(&w.ledger), 2);
}
