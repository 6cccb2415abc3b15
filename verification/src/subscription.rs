//! Subscription tiers, the limits that follow from them, the coupons that
//! grant them, and the permission records of users.

use vstd::prelude::*;
use vstd::string::*;

use crate::identity::{authenticate_user, is_authenticated, CallContext, Unauthenticated};
use crate::store::{lookup, upsert, Registry};

verus! {

/// Role of a user in the permission records.
#[derive(Clone, Copy, Debug, PartialEq, Eq, Structural)]
pub enum UserRole {
    User,
    Artist,
    Moderator,
    Admin,
}

/// What one user may do.
#[derive(Debug, PartialEq, Eq)]
pub struct UserPermissions {
    pub username: String,
    pub role: UserRole,
    pub can_create_certificates: bool,
    pub can_generate_nfts: bool,
    pub can_modify_certificates: bool,
    pub can_delete_certificates: bool,
}

/// Model of [`UserPermissions`].
pub struct UserPermissionsView {
    pub username: Seq<char>,
    pub role: UserRole,
    pub can_create_certificates: bool,
    pub can_generate_nfts: bool,
    pub can_modify_certificates: bool,
    pub can_delete_certificates: bool,
}

impl View for UserPermissions {
    type V = UserPermissionsView;

    open spec fn view(&self) -> UserPermissionsView {
        UserPermissionsView {
            username: self.username@,
            role: self.role,
            can_create_certificates: self.can_create_certificates,
            can_generate_nfts: self.can_generate_nfts,
            can_modify_certificates: self.can_modify_certificates,
            can_delete_certificates: self.can_delete_certificates,
        }
    }
}

impl Clone for UserPermissions {
    fn clone(&self) -> (r: UserPermissions)
        ensures
            r@ == self@,
    {
        UserPermissions {
            username: self.username.clone(),
            role: self.role,
            can_create_certificates: self.can_create_certificates,
            can_generate_nfts: self.can_generate_nfts,
            can_modify_certificates: self.can_modify_certificates,
            can_delete_certificates: self.can_delete_certificates,
        }
    }
}

/// Subscription tier of a user.
#[derive(Clone, Copy, Debug, PartialEq, Eq, Structural)]
pub enum SubscriptionTier {
    Free,
    Basic,
    Premium,
    Enterprise,
}

impl View for SubscriptionTier {
    type V = SubscriptionTier;

    open spec fn view(&self) -> SubscriptionTier {
        *self
    }
}

/// What a tier allows.
#[derive(Clone, Copy, Debug, PartialEq, Eq, Structural)]
pub struct SubscriptionLimits {
    pub max_photos: u32,
    pub max_file_size_mb: u32,
    pub can_generate_nft: bool,
    pub priority_support: bool,
}

impl SubscriptionTier {
    /// The limits of each tier.
    pub open spec fn limits(self) -> SubscriptionLimits {
        match self {
            SubscriptionTier::Free => SubscriptionLimits {
                max_photos: 5,
                max_file_size_mb: 10,
                can_generate_nft: false,
                priority_support: false,
            },
            SubscriptionTier::Basic => SubscriptionLimits {
                max_photos: 20,
                max_file_size_mb: 25,
                can_generate_nft: true,
                priority_support: false,
            },
            SubscriptionTier::Premium => SubscriptionLimits {
                max_photos: 100,
                max_file_size_mb: 50,
                can_generate_nft: true,
                priority_support: true,
            },
            SubscriptionTier::Enterprise => SubscriptionLimits {
                max_photos: 1000,
                max_file_size_mb: 100,
                can_generate_nft: true,
                priority_support: true,
            },
        }
    }

    /// The tier to suggest to a user who has hit a limit of this one: the next
    /// higher tier, and the highest for itself.
    pub open spec fn upgrade(self) -> SubscriptionTier {
        match self {
            SubscriptionTier::Free => SubscriptionTier::Basic,
            SubscriptionTier::Basic => SubscriptionTier::Premium,
            SubscriptionTier::Premium => SubscriptionTier::Enterprise,
            SubscriptionTier::Enterprise => SubscriptionTier::Enterprise,
        }
    }

    /// The name of each tier.
    pub open spec fn name(self) -> Seq<char> {
        match self {
            SubscriptionTier::Free => "Free"@,
            SubscriptionTier::Basic => "Basic"@,
            SubscriptionTier::Premium => "Premium"@,
            SubscriptionTier::Enterprise => "Enterprise"@,
        }
    }

    /// The limits of this tier.
    pub fn get_limits(&self) -> (r: SubscriptionLimits)
        ensures
            r == self.limits(),
    {
        match self {
            SubscriptionTier::Free => SubscriptionLimits {
                max_photos: 5,
                max_file_size_mb: 10,
                can_generate_nft: false,
                priority_support: false,
            },
            SubscriptionTier::Basic => SubscriptionLimits {
                max_photos: 20,
                max_file_size_mb: 25,
                can_generate_nft: true,
                priority_support: false,
            },
            SubscriptionTier::Premium => SubscriptionLimits {
                max_photos: 100,
                max_file_size_mb: 50,
                can_generate_nft: true,
                priority_support: true,
            },
            SubscriptionTier::Enterprise => SubscriptionLimits {
                max_photos: 1000,
                max_file_size_mb: 100,
                can_generate_nft: true,
                priority_support: true,
            },
        }
    }

    /// The tier to suggest when a limit of this one is hit.
    pub fn suggested_upgrade(&self) -> (r: SubscriptionTier)
        ensures
            r == self.upgrade(),
    {
        match self {
            SubscriptionTier::Free => SubscriptionTier::Basic,
            SubscriptionTier::Basic => SubscriptionTier::Premium,
            SubscriptionTier::Premium => SubscriptionTier::Enterprise,
            SubscriptionTier::Enterprise => SubscriptionTier::Enterprise,
        }
    }

    /// The name of this tier.
    pub fn label(&self) -> (r: String)
        ensures
            r@ == self.name(),
    {
        match self {
            SubscriptionTier::Free => String::from_str("Free"),
            SubscriptionTier::Basic => String::from_str("Basic"),
            SubscriptionTier::Premium => String::from_str("Premium"),
            SubscriptionTier::Enterprise => String::from_str("Enterprise"),
        }
    }
}

/// Tier that a coupon grants.
#[derive(Clone, Copy, Debug, PartialEq, Eq, Structural)]
pub enum CouponType {
    Free,
    Basic,
    Premium,
    Enterprise,
}

impl CouponType {
    /// The subscription tier that a coupon of this type grants.
    pub open spec fn tier(self) -> SubscriptionTier {
        match self {
            CouponType::Free => SubscriptionTier::Free,
            CouponType::Basic => SubscriptionTier::Basic,
            CouponType::Premium => SubscriptionTier::Premium,
            CouponType::Enterprise => SubscriptionTier::Enterprise,
        }
    }

    /// The subscription tier that a coupon of this type grants.
    pub fn granted_tier(&self) -> (r: SubscriptionTier)
        ensures
            r == self.tier(),
    {
        match self {
            CouponType::Free => SubscriptionTier::Free,
            CouponType::Basic => SubscriptionTier::Basic,
            CouponType::Premium => SubscriptionTier::Premium,
            CouponType::Enterprise => SubscriptionTier::Enterprise,
        }
    }
}

/// A code that upgrades the subscription of whoever redeems it.
#[derive(Debug, PartialEq, Eq)]
pub struct Coupon {
    pub code: String,
    pub coupon_type: CouponType,
    pub is_active: bool,
    pub max_uses: u32,
    pub current_uses: u32,
    /// Nanoseconds since the epoch.
    pub expires_at: u64,
}

/// Model of [`Coupon`].
pub struct CouponView {
    pub code: Seq<char>,
    pub coupon_type: CouponType,
    pub is_active: bool,
    pub max_uses: u32,
    pub current_uses: u32,
    pub expires_at: u64,
}

impl View for Coupon {
    type V = CouponView;

    open spec fn view(&self) -> CouponView {
        CouponView {
            code: self.code@,
            coupon_type: self.coupon_type,
            is_active: self.is_active,
            max_uses: self.max_uses,
            current_uses: self.current_uses,
            expires_at: self.expires_at,
        }
    }
}

impl Clone for Coupon {
    fn clone(&self) -> (r: Coupon)
        ensures
            r@ == self@,
    {
        Coupon {
            code: self.code.clone(),
            coupon_type: self.coupon_type,
            is_active: self.is_active,
            max_uses: self.max_uses,
            current_uses: self.current_uses,
            expires_at: self.expires_at,
        }
    }
}

/// Why a coupon was not redeemed.
#[derive(Clone, Copy, Debug, PartialEq, Eq, Structural)]
pub enum CouponError {
    Unauthenticated,
    InvalidCode,
    Inactive,
    Expired,
    UsageLimitExceeded,
}

/// One year in nanoseconds.
pub const ONE_YEAR_NS: u64 = 31_536_000_000_000_000;

/// Permission records by user name.
pub type PermissionRegistry = Registry<UserPermissions>;

/// Subscription tiers by user name; a user without entry is on the free tier.
pub type SubscriptionRegistry = Registry<SubscriptionTier>;

/// Coupons by code.
pub type CouponRegistry = Registry<Coupon>;

/// The record of the administrator.
pub open spec fn admin_permissions() -> UserPermissionsView {
    UserPermissionsView {
        username: "admin_user"@,
        role: UserRole::Admin,
        can_create_certificates: true,
        can_generate_nfts: true,
        can_modify_certificates: true,
        can_delete_certificates: true,
    }
}

/// The tier of `username`: its entry, or the free tier without one.
pub open spec fn tier_of(
    subscriptions: Seq<(Seq<char>, SubscriptionTier)>,
    username: Seq<char>,
) -> SubscriptionTier {
    match lookup(subscriptions, username) {
        Some(tier) => tier,
        None => SubscriptionTier::Free,
    }
}

/// A demonstration coupon.
pub open spec fn demo_coupon(code: Seq<char>, coupon_type: CouponType, max_uses: u32, now: u64) -> CouponView {
    CouponView {
        code,
        coupon_type,
        is_active: true,
        max_uses,
        current_uses: 0,
        expires_at: (now + ONE_YEAR_NS) as u64,
    }
}

/// The coupons after the three demonstration coupons were written.
pub open spec fn with_demo_coupons(coupons: Seq<(Seq<char>, CouponView)>, now: u64) -> Seq<
    (Seq<char>, CouponView),
> {
    let a = upsert(
        coupons,
        "DEMO-ENTERPRISE-2024"@,
        demo_coupon("DEMO-ENTERPRISE-2024"@, CouponType::Enterprise, 999999, now),
    );
    let b = upsert(
        a,
        "DEMO-BASIC-2024"@,
        demo_coupon("DEMO-BASIC-2024"@, CouponType::Basic, 100, now),
    );
    upsert(b, "DEMO-PREMIUM-2024"@, demo_coupon("DEMO-PREMIUM-2024"@, CouponType::Premium, 50, now))
}

/// Why a coupon cannot be redeemed at `now`, if it cannot.
pub open spec fn coupon_fault(coupon: Option<CouponView>, now: u64) -> Option<CouponError> {
    match coupon {
        None => Some(CouponError::InvalidCode),
        Some(c) => if !c.is_active {
            Some(CouponError::Inactive)
        } else if now > c.expires_at {
            Some(CouponError::Expired)
        } else if c.current_uses >= c.max_uses {
            Some(CouponError::UsageLimitExceeded)
        } else {
            None
        },
    }
}

/// A coupon after one more use.
pub open spec fn used_once(coupon: CouponView) -> CouponView {
    CouponView { current_uses: (coupon.current_uses + 1) as u32, ..coupon }
}

/// Writes the administrator's permission record.
pub fn initialize_admin(permissions: &mut PermissionRegistry)
    ensures
        final(permissions)@ == upsert(old(permissions)@, "admin_user"@, admin_permissions()),
{
    permissions.insert(
        String::from_str("admin_user"),
        UserPermissions {
            username: String::from_str("admin_user"),
            role: UserRole::Admin,
            can_create_certificates: true,
            can_generate_nfts: true,
            can_modify_certificates: true,
            can_delete_certificates: true,
        },
    );
}

/// The tier that applies to `username`, read afresh from the registry.
pub fn get_tier(subscriptions: &SubscriptionRegistry, username: &String) -> (r: SubscriptionTier)
    ensures
        r == tier_of(subscriptions@, username@),
{
    match subscriptions.get(username) {
        Some(tier) => *tier,
        None => SubscriptionTier::Free,
    }
}

/// Sets the tier of `username` on behalf of an authenticated caller.
pub fn set_user_subscription(
    subscriptions: &mut SubscriptionRegistry,
    context: &CallContext,
    username: String,
    tier: SubscriptionTier,
) -> (r: Result<bool, Unauthenticated>)
    ensures
        is_authenticated(context.caller@, context.canister@) ==> r == Ok::<bool, Unauthenticated>(
            true,
        ) && final(subscriptions)@ == upsert(old(subscriptions)@, username@, tier),
        !is_authenticated(context.caller@, context.canister@) ==> r is Err && final(subscriptions)@ == old(subscriptions)@,
{
    match authenticate_user(context) {
        Err(e) => Err(e),
        Ok(_) => {
            subscriptions.insert(username, tier);
            Ok(true)
        },
    }
}

/// The tier recorded for `username`, if any.
pub fn get_user_subscription(subscriptions: &SubscriptionRegistry, username: &String) -> (r: Option<
    SubscriptionTier,
>)
    ensures
        r == lookup(subscriptions@, username@),
{
    match subscriptions.get(username) {
        Some(tier) => Some(*tier),
        None => None,
    }
}

/// The limits of the tier recorded for `username`, if any.
pub fn get_subscription_limits(subscriptions: &SubscriptionRegistry, username: &String) -> (r:
    Option<SubscriptionLimits>)
    ensures
        r == match lookup(subscriptions@, username@) {
            Some(tier) => Some(tier.limits()),
            None => None,
        },
{
    match subscriptions.get(username) {
        Some(tier) => Some(tier.get_limits()),
        None => None,
    }
}

/// The tier recorded for `username`, if any.
pub fn get_user_subscription_debug(subscriptions: &SubscriptionRegistry, username: &String) -> (r:
    Option<SubscriptionTier>)
    ensures
        r == lookup(subscriptions@, username@),
{
    get_user_subscription(subscriptions, username)
}

/// Every recorded subscription, in the order in which users were first
/// recorded.
pub fn get_all_subscriptions_debug(subscriptions: &SubscriptionRegistry) -> (r: Vec<
    (String, SubscriptionTier),
>)
    ensures
        r@.len() == subscriptions@.len(),
        forall|i: int|
            0 <= i < r@.len() ==> (#[trigger] r@[i]).0@ == subscriptions@[i].0 && r@[i].1
                == subscriptions@[i].1,
{
    let mut out: Vec<(String, SubscriptionTier)> = Vec::new();
    let mut i: usize = 0;
    while i < subscriptions.len()
        invariant
            i <= subscriptions@.len(),
            out@.len() == i,
            forall|j: int|
                0 <= j < i ==> (#[trigger] out@[j]).0@ == subscriptions@[j].0 && out@[j].1
                    == subscriptions@[j].1,
        decreases subscriptions@.len() - i,
    {
        out.push((subscriptions.key_at(i).clone(), *subscriptions.value_at(i)));
        i = i + 1;
    }
    out
}

/// Records the two default subscriptions: the administrator on the highest
/// tier and the test user on the basic one.
pub fn initialize_default_subscriptions(subscriptions: &mut SubscriptionRegistry) -> (r: Result<
    bool,
    String,
>)
    ensures
        r is Ok && r->Ok_0,
        final(subscriptions)@ == upsert(
            upsert(old(subscriptions)@, "admin_user"@, SubscriptionTier::Enterprise),
            "test_user"@,
            SubscriptionTier::Basic,
        ),
{
    subscriptions.insert(String::from_str("admin_user"), SubscriptionTier::Enterprise);
    subscriptions.insert(String::from_str("test_user"), SubscriptionTier::Basic);
    Ok(true)
}

/// Writes one demonstration coupon.
fn put_demo_coupon(
    coupons: &mut CouponRegistry,
    code: &str,
    coupon_type: CouponType,
    max_uses: u32,
    now: u64,
)
    requires
        now <= u64::MAX - ONE_YEAR_NS,
    ensures
        final(coupons)@ == upsert(old(coupons)@, code@, demo_coupon(code@, coupon_type, max_uses, now)),
{
    coupons.insert(
        String::from_str(code),
        Coupon {
            code: String::from_str(code),
            coupon_type,
            is_active: true,
            max_uses,
            current_uses: 0,
            expires_at: now + ONE_YEAR_NS,
        },
    );
}

/// Writes the three demonstration coupons, each valid for one year from
/// `now`.
pub fn initialize_demo_coupons(coupons: &mut CouponRegistry, now: u64) -> (r: Result<bool, String>)
    requires
        now <= u64::MAX - ONE_YEAR_NS,
    ensures
        r is Ok && r->Ok_0,
        final(coupons)@ == with_demo_coupons(old(coupons)@, now),
{
    put_demo_coupon(coupons, "DEMO-ENTERPRISE-2024", CouponType::Enterprise, 999999, now);
    put_demo_coupon(coupons, "DEMO-BASIC-2024", CouponType::Basic, 100, now);
    put_demo_coupon(coupons, "DEMO-PREMIUM-2024", CouponType::Premium, 50, now);
    Ok(true)
}

/// Redeems `coupon_code` for `username`: the user gets the coupon's tier and
/// the coupon counts one more use. Nothing changes when the caller is not
/// authenticated or the coupon is unknown, inactive, expired or used up.
pub fn redeem_coupon(
    subscriptions: &mut SubscriptionRegistry,
    coupons: &mut CouponRegistry,
    context: &CallContext,
    username: String,
    coupon_code: String,
) -> (r: Result<bool, CouponError>)
    ensures
        !is_authenticated(context.caller@, context.canister@) ==> r == Err::<bool, CouponError>(
            CouponError::Unauthenticated,
        ),
        is_authenticated(context.caller@, context.canister@) ==> match coupon_fault(
            lookup(old(coupons)@, coupon_code@),
            context.time,
        ) {
            Some(e) => r == Err::<bool, CouponError>(e),
            None => r == Ok::<bool, CouponError>(true),
        },
        r is Err ==> final(subscriptions)@ == old(subscriptions)@ && final(coupons)@ == old(coupons)@,
        r is Ok ==> final(subscriptions)@ == upsert(
            old(subscriptions)@,
            username@,
            lookup(old(coupons)@, coupon_code@)->0.coupon_type.tier(),
        ) && final(coupons)@ == upsert(
            old(coupons)@,
            coupon_code@,
            used_once(lookup(old(coupons)@, coupon_code@)->0),
        ),
{
    if authenticate_user(context).is_err() {
        return Err(CouponError::Unauthenticated);
    }
    let mut coupon = match coupons.get(&coupon_code) {
        None => {
            return Err(CouponError::InvalidCode);
        },
        Some(c) => c.clone(),
    };
    if !coupon.is_active {
        return Err(CouponError::Inactive);
    }
    if context.time > coupon.expires_at {
        return Err(CouponError::Expired);
    }
    if coupon.current_uses >= coupon.max_uses {
        return Err(CouponError::UsageLimitExceeded);
    }
    subscriptions.insert(username, coupon.coupon_type.granted_tier());
    coupon.current_uses = coupon.current_uses + 1;
    coupons.insert(coupon_code, coupon);
    Ok(true)
}

/// Every coupon, in the order in which the codes were first written.
pub fn get_available_coupons(coupons: &CouponRegistry) -> (r: Vec<Coupon>)
    ensures
        r@.len() == coupons@.len(),
        forall|i: int| 0 <= i < r@.len() ==> (#[trigger] r@[i])@ == coupons@[i].1,
{
    let mut out: Vec<Coupon> = Vec::new();
    let mut i: usize = 0;
    while i < coupons.len()
        invariant
            i <= coupons@.len(),
            out@.len() == i,
            forall|j: int| 0 <= j < i ==> (#[trigger] out@[j])@ == coupons@[j].1,
        decreases coupons@.len() - i,
    {
        out.push(coupons.value_at(i).clone());
        i = i + 1;
    }
    out
}

} // verus!
