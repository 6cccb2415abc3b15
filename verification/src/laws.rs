//! What holds of the library as a whole, stated over the models that the
//! contracts of its functions use, and proved.

use vstd::prelude::*;

use crate::certificates::{is_authorized, is_valid_at, issuance_fault, verification_of};
use crate::error::{IssuanceError, MintError};
use crate::identity::is_authenticated;
use crate::lock::{elapsed, GRACE_WINDOW_NS};
use crate::minting::{mint_outcome, MintOutcome, MAX_CERTIFICATE_ID_LENGTH};
use crate::nft::{by_id, token_with, well_formed, TokenLedgerView};
use crate::store::{lemma_position_absent, lookup};
use crate::subscription::{tier_of, SubscriptionTier, UserPermissionsView};
use crate::text::byte_len;
use crate::types::certificate::{
    CertificateStatus, CertificateView, CreateCertificateRequestView,
};
use crate::types::nft::AccountView;
use crate::types::physical_art::PhysicalArtSessionView;

verus! {

/// An issuance that meets a held lock is refused as busy: where an earlier
/// issuance for the session took the lock at `since` and has not given it
/// back, an issuance for the same session at `now`, less than the grace
/// window later, by a caller who is authenticated and authorized, fails
/// with `Busy`, whatever the request holds.
pub proof fn law_issuance_under_held_lock_is_busy(
    permissions: Seq<(Seq<char>, UserPermissionsView)>,
    locks: Map<Seq<char>, u64>,
    sessions: Seq<(Seq<char>, PhysicalArtSessionView)>,
    subscriptions: Seq<(Seq<char>, SubscriptionTier)>,
    caller: Seq<u8>,
    canister: Seq<u8>,
    since: u64,
    now: u64,
    request: CreateCertificateRequestView,
)
    requires
        is_authenticated(caller, canister),
        is_authorized(permissions, request.username),
        elapsed(now, since) < GRACE_WINDOW_NS,
    ensures
        issuance_fault(
            permissions,
            locks.insert(request.session_id, since),
            sessions,
            subscriptions,
            caller,
            canister,
            now,
            request,
        ) == Some(IssuanceError::Busy),
{
}

/// Verification finds a certificate valid exactly when it has not expired
/// and is active, and gives every other certificate the score zero.
pub proof fn law_valid_iff_unexpired_and_active(certificate: CertificateView, now: u64)
    ensures
        verification_of(certificate, now).valid <==> now <= certificate.expiry_date
            && certificate.certificate_status == CertificateStatus::Active,
        verification_of(certificate, now).valid <==> is_valid_at(certificate, now),
        !verification_of(certificate, now).valid ==> verification_of(certificate, now).score == 0,
{
}

/// A certificate that has a token already is not minted from again: the
/// mint fails with `AlreadyMinted` and both ledgers stay as they were. This
/// holds of a certificate that the mint finds, under an identifier of valid
/// shape, and that is active; the checks for those come first.
pub proof fn law_linked_certificate_is_not_minted_again(
    certificates: Seq<(Seq<char>, CertificateView)>,
    tokens: TokenLedgerView,
    subscriptions: Seq<(Seq<char>, SubscriptionTier)>,
    sessions: Seq<(Seq<char>, PhysicalArtSessionView)>,
    caller: Seq<u8>,
    canister: Seq<u8>,
    now: u64,
    certificate_id: Seq<char>,
    recipient: AccountView,
)
    requires
        certificate_id.len() > 0,
        byte_len(certificate_id) <= MAX_CERTIFICATE_ID_LENGTH,
        lookup(certificates, certificate_id) is Some,
        lookup(certificates, certificate_id)->0.certificate_status == CertificateStatus::Active,
        lookup(certificates, certificate_id)->0.nft_link is Some,
    ensures
        mint_outcome(
            certificates,
            tokens,
            subscriptions,
            sessions,
            caller,
            canister,
            now,
            certificate_id,
            recipient,
        ) == (MintOutcome { result: Err(MintError::AlreadyMinted), certificates, tokens }),
{
}

/// A user whose tier forbids minting gets no token: the mint fails with
/// `TierForbidden`, both ledgers stay as they were, and the counter does
/// not move. This holds of a certificate that the mint finds, under an
/// identifier of valid shape, and that is active and without token; the
/// checks for those come first.
pub proof fn law_forbidden_tier_mints_nothing(
    certificates: Seq<(Seq<char>, CertificateView)>,
    tokens: TokenLedgerView,
    subscriptions: Seq<(Seq<char>, SubscriptionTier)>,
    sessions: Seq<(Seq<char>, PhysicalArtSessionView)>,
    caller: Seq<u8>,
    canister: Seq<u8>,
    now: u64,
    certificate_id: Seq<char>,
    recipient: AccountView,
)
    requires
        certificate_id.len() > 0,
        byte_len(certificate_id) <= MAX_CERTIFICATE_ID_LENGTH,
        lookup(certificates, certificate_id) is Some,
        lookup(certificates, certificate_id)->0.certificate_status == CertificateStatus::Active,
        lookup(certificates, certificate_id)->0.nft_link is None,
        !tier_of(subscriptions, lookup(certificates, certificate_id)->0.username).limits().can_generate_nft,
    ensures
        ({
            let tier = tier_of(subscriptions, lookup(certificates, certificate_id)->0.username);
            mint_outcome(
                certificates,
                tokens,
                subscriptions,
                sessions,
                caller,
                canister,
                now,
                certificate_id,
                recipient,
            ) == (MintOutcome {
                result: Err(MintError::TierForbidden { tier, suggested_tier: tier.upgrade() }),
                certificates,
                tokens,
            })
        }),
{
}

/// A mint whose token cannot be recorded on the certificate leaves no trace
/// but the counter: the ledger holds the tokens that it held before and not
/// the token of this mint, the supply is what it was, and the certificates
/// are untouched.
pub proof fn law_failed_link_is_rolled_back(
    certificates: Seq<(Seq<char>, CertificateView)>,
    tokens: TokenLedgerView,
    subscriptions: Seq<(Seq<char>, SubscriptionTier)>,
    sessions: Seq<(Seq<char>, PhysicalArtSessionView)>,
    caller: Seq<u8>,
    canister: Seq<u8>,
    now: u64,
    certificate_id: Seq<char>,
    recipient: AccountView,
)
    requires
        well_formed(tokens),
        mint_outcome(
            certificates,
            tokens,
            subscriptions,
            sessions,
            caller,
            canister,
            now,
            certificate_id,
            recipient,
        ).result matches Err(MintError::LinkFailed(_)),
    ensures
        ({
            let outcome = mint_outcome(
                certificates,
                tokens,
                subscriptions,
                sessions,
                caller,
                canister,
                now,
                certificate_id,
                recipient,
            );
            &&& outcome.tokens.tokens == tokens.tokens
            &&& outcome.tokens.collection == tokens.collection
            &&& outcome.tokens.collection.total_supply == tokens.collection.total_supply
            &&& token_with(outcome.tokens.tokens, tokens.next_token_id) is None
            &&& outcome.certificates == certificates
        }),
{
    let keyed = by_id(tokens.tokens);
    assert forall|j: int| 0 <= j < keyed.len() implies (#[trigger] keyed[j]).0
        != tokens.next_token_id by {
        assert(tokens.tokens[j].id < tokens.next_token_id);
    }
    lemma_position_absent(keyed, tokens.next_token_id);
}

/// The counter never goes back, and a successful mint returns the
/// identifier that the counter stood at and moves the counter past it.
pub proof fn law_counter_only_advances(
    certificates: Seq<(Seq<char>, CertificateView)>,
    tokens: TokenLedgerView,
    subscriptions: Seq<(Seq<char>, SubscriptionTier)>,
    sessions: Seq<(Seq<char>, PhysicalArtSessionView)>,
    caller: Seq<u8>,
    canister: Seq<u8>,
    now: u64,
    certificate_id: Seq<char>,
    recipient: AccountView,
)
    requires
        tokens.next_token_id < u64::MAX,
    ensures
        ({
            let outcome = mint_outcome(
                certificates,
                tokens,
                subscriptions,
                sessions,
                caller,
                canister,
                now,
                certificate_id,
                recipient,
            );
            &&& tokens.next_token_id <= outcome.tokens.next_token_id <= tokens.next_token_id + 1
            &&& outcome.result is Ok ==> outcome.result->Ok_0 == tokens.next_token_id
                && outcome.tokens.next_token_id == tokens.next_token_id + 1
        }),
{
}

/// A mint keeps the ledger's invariant: identifiers grow strictly along the
/// tokens, so no two tokens share one, and the supply counts the tokens.
pub proof fn law_mint_keeps_ledger_well_formed(
    certificates: Seq<(Seq<char>, CertificateView)>,
    tokens: TokenLedgerView,
    subscriptions: Seq<(Seq<char>, SubscriptionTier)>,
    sessions: Seq<(Seq<char>, PhysicalArtSessionView)>,
    caller: Seq<u8>,
    canister: Seq<u8>,
    now: u64,
    certificate_id: Seq<char>,
    recipient: AccountView,
)
    requires
        well_formed(tokens),
        tokens.next_token_id < u64::MAX,
    ensures
        well_formed(
            mint_outcome(
                certificates,
                tokens,
                subscriptions,
                sessions,
                caller,
                canister,
                now,
                certificate_id,
                recipient,
            ).tokens,
        ),
{
    let outcome = mint_outcome(
        certificates,
        tokens,
        subscriptions,
        sessions,
        caller,
        canister,
        now,
        certificate_id,
        recipient,
    );
    let n = tokens.tokens.len() as int;
    assert forall|j: int| 0 <= j < outcome.tokens.tokens.len() implies j < (
    #[trigger] outcome.tokens.tokens[j]).id < outcome.tokens.next_token_id by {
        if j < n {
            assert(outcome.tokens.tokens[j] == tokens.tokens[j]);
        } else if n > 0 {
            assert(n - 1 < tokens.tokens[n - 1].id);
        }
    }
    assert forall|j: int, k: int| 0 <= j < k < outcome.tokens.tokens.len() implies (
    #[trigger] outcome.tokens.tokens[j]).id < (#[trigger] outcome.tokens.tokens[k]).id by {
        assert(outcome.tokens.tokens[j] == tokens.tokens[j]);
        if k < n {
            assert(outcome.tokens.tokens[k] == tokens.tokens[k]);
        }
    }
}

/// The inputs of one mint besides the two ledgers.
pub struct MintCall {
    pub subscriptions: Seq<(Seq<char>, SubscriptionTier)>,
    pub sessions: Seq<(Seq<char>, PhysicalArtSessionView)>,
    pub caller: Seq<u8>,
    pub canister: Seq<u8>,
    pub now: u64,
    pub certificate_id: Seq<char>,
    pub recipient: AccountView,
}

/// The state after a run of mints, and what each of them returned.
pub struct MintRun {
    pub certificates: Seq<(Seq<char>, CertificateView)>,
    pub tokens: TokenLedgerView,
    pub results: Seq<Result<u64, MintError>>,
}

/// Runs the mints `calls` one after the other, each on the ledgers that the
/// one before left behind.
pub open spec fn mint_run(
    certificates: Seq<(Seq<char>, CertificateView)>,
    tokens: TokenLedgerView,
    calls: Seq<MintCall>,
) -> MintRun
    decreases calls.len(),
{
    if calls.len() == 0 {
        MintRun { certificates, tokens, results: Seq::empty() }
    } else {
        let before = mint_run(certificates, tokens, calls.drop_last());
        let call = calls.last();
        let outcome = mint_outcome(
            before.certificates,
            before.tokens,
            call.subscriptions,
            call.sessions,
            call.caller,
            call.canister,
            call.now,
            call.certificate_id,
            call.recipient,
        );
        MintRun {
            certificates: outcome.certificates,
            tokens: outcome.tokens,
            results: before.results.push(outcome.result),
        }
    }
}

/// Token identifiers grow strictly over any run of mints: of two mints that
/// both succeed, the later returns the larger identifier, whatever happened
/// in between, a mint that was rolled back included. So no identifier is
/// returned twice.
pub proof fn law_token_ids_strictly_increase(
    certificates: Seq<(Seq<char>, CertificateView)>,
    tokens: TokenLedgerView,
    calls: Seq<MintCall>,
)
    requires
        tokens.next_token_id + calls.len() <= u64::MAX,
    ensures
        ({
            let run = mint_run(certificates, tokens, calls);
            &&& run.results.len() == calls.len()
            &&& tokens.next_token_id <= run.tokens.next_token_id <= tokens.next_token_id
                + calls.len()
            &&& forall|i: int|
                0 <= i < run.results.len() && (#[trigger] run.results[i]) is Ok
                    ==> tokens.next_token_id <= run.results[i]->Ok_0 < run.tokens.next_token_id
            &&& forall|i: int, j: int|
                0 <= i < j < run.results.len() && (#[trigger] run.results[i]) is Ok && (
                #[trigger] run.results[j]) is Ok ==> run.results[i]->Ok_0 < run.results[j]->Ok_0
        }),
    decreases calls.len(),
{
    if calls.len() > 0 {
        let earlier = calls.drop_last();
        law_token_ids_strictly_increase(certificates, tokens, earlier);
        let before = mint_run(certificates, tokens, earlier);
        let call = calls.last();
        law_counter_only_advances(
            before.certificates,
            before.tokens,
            call.subscriptions,
            call.sessions,
            call.caller,
            call.canister,
            call.now,
            call.certificate_id,
            call.recipient,
        );
        let run = mint_run(certificates, tokens, calls);
        let n = before.results.len() as int;
        assert forall|i: int| 0 <= i < run.results.len() && (#[trigger] run.results[i]) is Ok implies tokens.next_token_id
            <= run.results[i]->Ok_0 < run.tokens.next_token_id by {
            if i < n {
                assert(run.results[i] == before.results[i]);
            }
        }
        assert forall|i: int, j: int|
            0 <= i < j < run.results.len() && (#[trigger] run.results[i]) is Ok && (
            #[trigger] run.results[j]) is Ok implies run.results[i]->Ok_0 < run.results[j]->Ok_0 by {
            assert(run.results[i] == before.results[i]);
            if j < n {
                assert(run.results[j] == before.results[j]);
            }
        }
    }
}

} // verus!
