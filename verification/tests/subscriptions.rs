use origin_stamp::certificates::MovedToMinting;
use origin_stamp::error::{
    Field, IssuanceError, LinkError, MintError, NotFound, QuotaKind, Reason, ValidationError,
};
use origin_stamp::identity::{CallContext, PrincipalId, Unauthenticated};
use origin_stamp::messages::{
    certificate_not_found_message, coupon_message, issuance_message, link_message, mint_message,
    moved_message, not_configured_message, session_not_found_message, transfer_message,
    validation_message,
};
use origin_stamp::s3::NotConfigured;
use origin_stamp::store::Registry;
use origin_stamp::subscription::{
    get_all_subscriptions_debug, get_available_coupons, get_subscription_limits, get_tier,
    get_user_subscription, get_user_subscription_debug, initialize_admin,
    initialize_default_subscriptions, initialize_demo_coupons, redeem_coupon,
    set_user_subscription, Coupon, CouponError, CouponRegistry, CouponType, PermissionRegistry,
    SubscriptionLimits, SubscriptionRegistry, SubscriptionTier, UserPermissions, UserRole,
    ONE_YEAR_NS,
};
use origin_stamp::types::TransferError;

fn s(v: &str) -> String {
    v.to_string()
}

fn context(time: u64) -> CallContext {
    CallContext {
        caller: PrincipalId::from_bytes(vec![1]).unwrap(),
        canister: PrincipalId::from_bytes(vec![9]).unwrap(),
        time,
    }
}

fn anonymous(time: u64) -> CallContext {
    CallContext { caller: PrincipalId::anonymous(), ..context(time) }
}

#[test]
fn limits_of_each_tier() {
    let limits = |max_photos, max_file_size_mb, can_generate_nft, priority_support| {
        SubscriptionLimits { max_photos, max_file_size_mb, can_generate_nft, priority_support }
    };
    assert_eq!(SubscriptionTier::Free.get_limits(), limits(5, 10, false, false));
    assert_eq!(SubscriptionTier::Basic.get_limits(), limits(20, 25, true, false));
    assert_eq!(SubscriptionTier::Premium.get_limits(), limits(100, 50, true, true));
    assert_eq!(SubscriptionTier::Enterprise.get_limits(), limits(1000, 100, true, true));
}

#[test]
fn upgrades_and_labels() {
    assert_eq!(SubscriptionTier::Free.suggested_upgrade(), SubscriptionTier::Basic);
    assert_eq!(SubscriptionTier::Basic.suggested_upgrade(), SubscriptionTier::Premium);
    assert_eq!(SubscriptionTier::Premium.suggested_upgrade(), SubscriptionTier::Enterprise);
    assert_eq!(SubscriptionTier::Enterprise.suggested_upgrade(), SubscriptionTier::Enterprise);
    assert_eq!(SubscriptionTier::Free.label(), "Free");
    assert_eq!(SubscriptionTier::Basic.label(), "Basic");
    assert_eq!(SubscriptionTier::Premium.label(), "Premium");
    assert_eq!(SubscriptionTier::Enterprise.label(), "Enterprise");
    assert_eq!(CouponType::Free.granted_tier(), SubscriptionTier::Free);
    assert_eq!(CouponType::Basic.granted_tier(), SubscriptionTier::Basic);
    assert_eq!(CouponType::Premium.granted_tier(), SubscriptionTier::Premium);
    assert_eq!(CouponType::Enterprise.granted_tier(), SubscriptionTier::Enterprise);
}

#[test]
fn administrator_record() {
    let mut permissions: PermissionRegistry = Registry::new();
    initialize_admin(&mut permissions);
    initialize_admin(&mut permissions);
    assert_eq!(permissions.len(), 1);
    assert_eq!(
        permissions.get(&s("admin_user")),
        Some(&UserPermissions {
            username: s("admin_user"),
            role: UserRole::Admin,
            can_create_certificates: true,
            can_generate_nfts: true,
            can_modify_certificates: true,
            can_delete_certificates: true,
        })
    );
}

#[test]
fn subscriptions() {
    let mut subs: SubscriptionRegistry = Registry::new();
    assert_eq!(get_tier(&subs, &s("alice")), SubscriptionTier::Free);
    assert_eq!(get_user_subscription(&subs, &s("alice")), None);
    assert_eq!(get_subscription_limits(&subs, &s("alice")), None);
    assert_eq!(initialize_default_subscriptions(&mut subs), Ok(true));
    assert_eq!(
        get_all_subscriptions_debug(&subs),
        vec![(s("admin_user"), SubscriptionTier::Enterprise), (s("test_user"), SubscriptionTier::Basic)]
    );
    assert_eq!(
        set_user_subscription(&mut subs, &anonymous(1), s("alice"), SubscriptionTier::Premium),
        Err(Unauthenticated)
    );
    assert_eq!(get_user_subscription(&subs, &s("alice")), None);
    assert_eq!(
        set_user_subscription(&mut subs, &context(1), s("alice"), SubscriptionTier::Premium),
        Ok(true)
    );
    assert_eq!(get_user_subscription(&subs, &s("alice")), Some(SubscriptionTier::Premium));
    assert_eq!(get_user_subscription_debug(&subs, &s("alice")), Some(SubscriptionTier::Premium));
    assert_eq!(get_tier(&subs, &s("alice")), SubscriptionTier::Premium);
    assert_eq!(
        get_subscription_limits(&subs, &s("test_user")),
        Some(SubscriptionTier::Basic.get_limits())
    );
}

#[test]
fn demonstration_coupons() {
    let mut coupons: CouponRegistry = Registry::new();
    assert_eq!(initialize_demo_coupons(&mut coupons, 1000), Ok(true));
    let coupon = |code: &str, coupon_type, max_uses| Coupon {
        code: s(code),
        coupon_type,
        is_active: true,
        max_uses,
        current_uses: 0,
        expires_at: 1000 + ONE_YEAR_NS,
    };
    assert_eq!(ONE_YEAR_NS, 365 * 24 * 60 * 60 * 1_000_000_000);
    assert_eq!(
        get_available_coupons(&coupons),
        vec![
            coupon("DEMO-ENTERPRISE-2024", CouponType::Enterprise, 999999),
            coupon("DEMO-BASIC-2024", CouponType::Basic, 100),
            coupon("DEMO-PREMIUM-2024", CouponType::Premium, 50),
        ]
    );
}

#[test]
fn redeeming_coupons() {
    let mut subs: SubscriptionRegistry = Registry::new();
    let mut coupons: CouponRegistry = Registry::new();
    initialize_demo_coupons(&mut coupons, 1000).unwrap();
    coupons.insert(
        s("ONCE"),
        Coupon {
            code: s("ONCE"),
            coupon_type: CouponType::Premium,
            is_active: true,
            max_uses: 1,
            current_uses: 0,
            expires_at: 2000,
        },
    );
    coupons.insert(
        s("OFF"),
        Coupon {
            code: s("OFF"),
            coupon_type: CouponType::Premium,
            is_active: false,
            max_uses: 1,
            current_uses: 0,
            expires_at: 2000,
        },
    );
    let mut redeem = |ctx: &CallContext, user: &str, code: &str| {
        redeem_coupon(&mut subs, &mut coupons, ctx, s(user), s(code))
    };
    assert_eq!(redeem(&anonymous(1500), "alice", "ONCE"), Err(CouponError::Unauthenticated));
    assert_eq!(redeem(&context(1500), "alice", "NOPE"), Err(CouponError::InvalidCode));
    assert_eq!(redeem(&context(1500), "alice", "OFF"), Err(CouponError::Inactive));
    assert_eq!(redeem(&context(2001), "alice", "ONCE"), Err(CouponError::Expired));
    assert_eq!(redeem(&context(2000), "alice", "ONCE"), Ok(true));
    assert_eq!(redeem(&context(1500), "bob", "ONCE"), Err(CouponError::UsageLimitExceeded));
    assert_eq!(redeem(&context(1500), "bob", "DEMO-BASIC-2024"), Ok(true));
    assert_eq!(get_user_subscription(&subs, &s("alice")), Some(SubscriptionTier::Premium));
    assert_eq!(get_user_subscription(&subs, &s("bob")), Some(SubscriptionTier::Basic));
    assert_eq!(coupons.get(&s("ONCE")).unwrap().current_uses, 1);
    assert_eq!(coupons.get(&s("DEMO-BASIC-2024")).unwrap().current_uses, 1);
    assert_eq!(coupons.get(&s("DEMO-PREMIUM-2024")).unwrap().current_uses, 0);
    assert_eq!(coupons.len(), 5);
}

#[test]
fn validation_messages() {
    let m = |field, reason| validation_message(&ValidationError { field, reason });
    assert_eq!(
        m(Field::SessionId, Reason::Length),
        "Invalid session_id: must be between 1-100 characters"
    );
    assert_eq!(
        m(Field::Username, Reason::Length),
        "Invalid username: must be between 1-50 characters"
    );
    assert_eq!(m(Field::ArtTitle, Reason::Length), "String length must be between 1-200 characters");
    assert_eq!(
        m(Field::Description, Reason::Length),
        "String length must be between 1-1000 characters"
    );
    assert_eq!(
        m(Field::CreationTools, Reason::Length),
        "String length must be between 1-50 characters"
    );
    assert_eq!(
        m(Field::ArtTitle, Reason::NoValidCharacters),
        "String contains no valid characters after sanitization"
    );
    assert_eq!(m(Field::PhotoCount, Reason::OutOfRange), "Invalid photo_count: must be between 1-100");
    assert_eq!(
        m(Field::CreationDuration, Reason::OutOfRange),
        "Invalid creation_duration: must be between 1-525600 minutes"
    );
    assert_eq!(
        m(Field::FileFormat, Reason::Unsupported),
        "Invalid file_format: must be one of [\"JPEG\", \"PNG\", \"GIF\", \"WEBP\", \"JPEG/PNG\"]"
    );
    assert_eq!(
        m(Field::CreationTools, Reason::Count),
        "Invalid creation_tools: must have 1-20 tools"
    );
}

#[test]
fn issuance_messages() {
    let m = |e| issuance_message(&e, "alice");
    assert_eq!(m(IssuanceError::Unauthenticated), "Anonymous calls not allowed");
    assert_eq!(
        m(IssuanceError::Unauthorized),
        "User alice is not authorized to create certificates"
    );
    assert_eq!(
        m(IssuanceError::Busy),
        "Certificate generation already in progress for this session"
    );
    assert_eq!(
        m(IssuanceError::Invalid(ValidationError {
            field: Field::PhotoCount,
            reason: Reason::OutOfRange
        })),
        "Invalid photo_count: must be between 1-100"
    );
    assert_eq!(m(IssuanceError::NotFound), "Session not found");
    assert_eq!(
        m(IssuanceError::InvalidState),
        "Session is not in valid state for certificate generation"
    );
    assert_eq!(m(IssuanceError::OwnershipMismatch), "Session ownership mismatch");
    assert_eq!(
        m(IssuanceError::QuotaExceeded {
            kind: QuotaKind::Photos,
            current: 6,
            limit: 5,
            suggested_tier: SubscriptionTier::Basic
        }),
        "Photo count 6 exceeds subscription limit 5. Upgrade to Basic tier for more photos."
    );
    assert_eq!(
        m(IssuanceError::QuotaExceeded {
            kind: QuotaKind::TotalSize,
            current: 30,
            limit: 25,
            suggested_tier: SubscriptionTier::Premium
        }),
        "Total file size 30MB exceeds subscription limit 25MB. Upgrade to Premium tier for \
         larger files."
    );
    assert_eq!(m(IssuanceError::CountMismatch), "Photo count mismatch with uploaded photos");
}

#[test]
fn minting_messages() {
    assert_eq!(mint_message(&MintError::Invalid), "Invalid certificate ID");
    assert_eq!(mint_message(&MintError::NotFound), "Certificate not found");
    assert_eq!(mint_message(&MintError::InactiveCertificate), "Certificate is not active");
    assert_eq!(
        mint_message(&MintError::AlreadyMinted),
        "NFT already generated for this certificate"
    );
    assert_eq!(
        mint_message(&MintError::TierForbidden {
            tier: SubscriptionTier::Free,
            suggested_tier: SubscriptionTier::Basic
        }),
        "NFT generation not allowed for Free tier. Upgrade to Basic tier or higher to generate \
         NFTs."
    );
    assert_eq!(mint_message(&MintError::SessionMissing), "Session not found for NFT generation");
    assert_eq!(
        mint_message(&MintError::LinkFailed(LinkError::NotFound)),
        "Failed to update certificate: Certificate not found"
    );
    assert_eq!(
        mint_message(&MintError::LinkFailed(LinkError::Unauthenticated)),
        "Failed to update certificate: Anonymous calls not allowed"
    );
    assert_eq!(link_message(&LinkError::NotFound), "Certificate not found");
}

#[test]
fn other_messages() {
    assert_eq!(
        transfer_message(&TransferError::Unauthorized),
        "Unauthorized: caller is not the owner"
    );
    assert_eq!(transfer_message(&TransferError::NotOwner), "Token not owned by from account");
    assert_eq!(transfer_message(&TransferError::TokenNotFound), "Token not found");
    assert_eq!(coupon_message(&CouponError::Unauthenticated), "Anonymous calls not allowed");
    assert_eq!(coupon_message(&CouponError::InvalidCode), "Invalid coupon code");
    assert_eq!(coupon_message(&CouponError::Inactive), "Coupon is not active");
    assert_eq!(coupon_message(&CouponError::Expired), "Coupon has expired");
    assert_eq!(coupon_message(&CouponError::UsageLimitExceeded), "Coupon usage limit exceeded");
    assert_eq!(
        not_configured_message(&NotConfigured),
        "S3 configuration not found. Please configure S3 settings first."
    );
    assert_eq!(
        moved_message(&MovedToMinting),
        "NFT generation moved to NFT Module. Use mint_certificate_nft instead."
    );
    assert_eq!(session_not_found_message(&NotFound), "Session not found");
    assert_eq!(certificate_not_found_message(&NotFound), "Certificate not found");
}
