//! Minting a token from a certificate: check, mint, record the token on the
//! certificate, and retract the token where that fails.

use vstd::prelude::*;
use vstd::string::*;
use vstd::utf8::encode_utf8;

use crate::certificates::{linked, update_certificate_nft_info, CertificateLedger};
use crate::digest::{be_bytes, digest_hex, sha256_hex, u64_be_bytes};
use crate::error::{LinkError, MintError};
use crate::identity::{is_authenticated, CallContext};
use crate::nft::{
    allocated, lemma_retract_undoes_record, recorded, retracted, well_formed, TokenLedger,
    TokenLedgerView,
};
use crate::physical_art::SessionStore;
use crate::store::{lookup, upsert};
use crate::subscription::{get_tier, tier_of, SubscriptionRegistry, SubscriptionTier};
use crate::text::{byte_len, decimal, join, joined, u64_to_decimal};
use crate::types::certificate::{Certificate, CertificateStatus, CertificateView};
use crate::types::nft::{Account, AccountView, Token, TokenMetadata, TokenMetadataView, TokenView};
use crate::types::physical_art::{PhysicalArtSession, PhysicalArtSessionView};

verus! {

/// Longest certificate identifier that minting accepts, in bytes.
pub const MAX_CERTIFICATE_ID_LENGTH: usize = 100;

/// Why no token is minted from the certificate `certificate_id`, if none is,
/// before anything is written: the identifier is malformed, no such
/// certificate exists, it is not active, it has a token already, its
/// owner's tier forbids minting, or its session is gone.
pub open spec fn mint_fault(
    certificates: Seq<(Seq<char>, CertificateView)>,
    subscriptions: Seq<(Seq<char>, SubscriptionTier)>,
    sessions: Seq<(Seq<char>, PhysicalArtSessionView)>,
    certificate_id: Seq<char>,
) -> Option<MintError> {
    if certificate_id.len() == 0 || byte_len(certificate_id) > MAX_CERTIFICATE_ID_LENGTH {
        Some(MintError::Invalid)
    } else {
        match lookup(certificates, certificate_id) {
            None => Some(MintError::NotFound),
            Some(c) => {
                let tier = tier_of(subscriptions, c.username);
                if c.certificate_status != CertificateStatus::Active {
                    Some(MintError::InactiveCertificate)
                } else if c.nft_link is Some {
                    Some(MintError::AlreadyMinted)
                } else if !tier.limits().can_generate_nft {
                    Some(MintError::TierForbidden { tier, suggested_tier: tier.upgrade() })
                } else if lookup(sessions, c.session_id) is None {
                    Some(MintError::SessionMissing)
                } else {
                    None
                }
            },
        }
    }
}

/// Runs the checks that come before a token is minted, and hands back the
/// certificate and its session. The owner's tier is read afresh.
pub fn prepare_mint(
    certificates: &CertificateLedger,
    subscriptions: &SubscriptionRegistry,
    sessions: &SessionStore,
    certificate_id: &String,
) -> (r: Result<(Certificate, PhysicalArtSession), MintError>)
    ensures
        match mint_fault(certificates@, subscriptions@, sessions@, certificate_id@) {
            Some(e) => r == Err::<(Certificate, PhysicalArtSession), MintError>(e),
            None => r is Ok && Some(r->Ok_0.0@) == lookup(certificates@, certificate_id@) && Some(
                r->Ok_0.1@,
            ) == lookup(sessions@, r->Ok_0.0@.session_id),
        },
{
    if certificate_id.as_str().is_empty() || certificate_id.as_str().len()
        > MAX_CERTIFICATE_ID_LENGTH {
        return Err(MintError::Invalid);
    }
    let certificate = match certificates.get(certificate_id) {
        None => {
            return Err(MintError::NotFound);
        },
        Some(c) => c,
    };
    match certificate.certificate_status {
        CertificateStatus::Active => {},
        _ => {
            return Err(MintError::InactiveCertificate);
        },
    }
    if certificate.nft_link.is_some() {
        return Err(MintError::AlreadyMinted);
    }
    let tier = get_tier(subscriptions, &certificate.username);
    if !tier.get_limits().can_generate_nft {
        return Err(MintError::TierForbidden { tier, suggested_tier: tier.suggested_upgrade() });
    }
    let session = match sessions.get(&certificate.session_id) {
        None => {
            return Err(MintError::SessionMissing);
        },
        Some(s) => s,
    };
    Ok((certificate.clone(), session.clone()))
}

/// The hash that binds a token to its content: the digest over the token
/// identifier, the session identifier and the time, in hexadecimal.
pub open spec fn token_hash_text(token_id: u64, session_id: Seq<char>, timestamp: u64) -> Seq<char> {
    sha256_hex(be_bytes(token_id as nat, 8) + encode_utf8(session_id) + be_bytes(timestamp as nat, 8))
}

/// Computes the content-binding hash of a token.
pub fn generate_token_hash(token_id: u64, session_id: &str, timestamp: u64) -> (r: String)
    ensures
        r@ == token_hash_text(token_id, session_id@, timestamp),
{
    let mut data = u64_be_bytes(token_id);
    let mut session_bytes = session_id.as_bytes_vec();
    let mut time_bytes = u64_be_bytes(timestamp);
    data.append(&mut session_bytes);
    data.append(&mut time_bytes);
    digest_hex(&data)
}

/// One attribute for each of the first `n` photos, in upload order, keyed by
/// `prefix` and the photo's number, counted from one.
pub open spec fn photo_attributes(prefix: Seq<char>, photos: Seq<Seq<char>>, n: nat) -> Seq<
    (Seq<char>, Seq<char>),
> {
    Seq::new(n, |i: int| (prefix + decimal((i + 1) as nat), photos[i]))
}

/// The attributes of a token minted from `certificate`: what identifies the
/// certificate and verifies it, how the work was made, where it is
/// recorded, and then each photo of the session.
pub open spec fn certificate_attributes(
    certificate: CertificateView,
    photos: Seq<Seq<char>>,
    token_hash: Seq<char>,
) -> Seq<(Seq<char>, Seq<char>)> {
    seq![
        ("certificate_id"@, certificate.certificate_id),
        ("art_title"@, certificate.art_title),
        ("artist"@, certificate.username),
        ("description"@, certificate.description),
        ("verification_hash"@, certificate.verification_hash),
        ("verification_score"@, decimal(certificate.verification_score as nat)),
        ("authenticity_rating"@, decimal(certificate.authenticity_rating as nat)),
        ("provenance_score"@, decimal(certificate.provenance_score as nat)),
        ("community_trust"@, decimal(certificate.community_trust as nat)),
        ("creation_duration"@, certificate.metadata.creation_duration),
        ("total_actions"@, decimal(certificate.metadata.total_actions as nat)),
        ("file_format"@, certificate.metadata.file_format),
        ("creation_tools"@, joined(certificate.metadata.creation_tools, ", "@)),
        ("blockchain"@, certificate.blockchain),
        ("token_standard"@, certificate.token_standard),
        ("issuer"@, certificate.issuer),
        ("issue_date"@, decimal(certificate.issue_date as nat)),
        ("photo_count"@, decimal(photos.len())),
        ("session_id"@, certificate.session_id),
        ("token_hash"@, token_hash),
    ] + photo_attributes("progress_photo_"@, photos, photos.len())
}

/// The name of a token minted from a certificate.
pub open spec fn certificate_token_name(art_title: Seq<char>, token_id: u64) -> Seq<char> {
    art_title + " - Certificate NFT #"@ + decimal(token_id as nat)
}

/// The description of a token minted from a certificate.
pub open spec fn certificate_token_description(certificate: CertificateView) -> Seq<char> {
    "Digital certificate NFT for artwork: "@ + certificate.art_title
        + ". This NFT represents the authenticated certificate with verification score "@
        + decimal(certificate.verification_score as nat) + " and authenticity rating "@ + decimal(
        certificate.authenticity_rating as nat,
    ) + "."@
}

/// The photo uploaded last, which shows the finished work.
pub open spec fn last_photo(photos: Seq<Seq<char>>) -> Option<Seq<char>> {
    if photos.len() > 0 {
        Some(photos.last())
    } else {
        None
    }
}

/// Where the metadata of the token `token_id` is found.
pub open spec fn token_uri_text(token_id: u64) -> Seq<char> {
    "https://originstamp.ic0.app/nft/"@ + decimal(token_id as nat) + "/metadata"@
}

/// The token that is minted from `certificate` for `recipient` at `now`
/// under the identifier `token_id`.
pub open spec fn certificate_token(
    certificate: CertificateView,
    session: PhysicalArtSessionView,
    token_id: u64,
    recipient: AccountView,
    now: u64,
) -> TokenView {
    TokenView {
        id: token_id,
        owner: recipient,
        metadata: TokenMetadataView {
            name: certificate_token_name(certificate.art_title, token_id),
            description: Some(certificate_token_description(certificate)),
            image: last_photo(session.uploaded_photos),
            attributes: certificate_attributes(
                certificate,
                session.uploaded_photos,
                token_hash_text(token_id, certificate.session_id, now),
            ),
        },
        created_at: now,
        session_id: Some(certificate.session_id),
    }
}

/// One attribute.
pub fn attribute(key: &str, value: String) -> (a: (String, String))
    ensures
        a.0@ == key@,
        a.1@ == value@,
{
    (String::from_str(key), value)
}

/// Appends one attribute for each photo, keyed by `prefix` and the photo's
/// number.
pub fn push_photo_attributes(
    attributes: &mut Vec<(String, String)>,
    prefix: &str,
    photos: &Vec<String>,
)
    ensures
        final(attributes).deep_view() == old(attributes).deep_view() + photo_attributes(
            prefix@,
            photos.deep_view(),
            photos.len() as nat,
        ),
{
    let ghost base = attributes.deep_view();
    let ghost all = photos.deep_view();
    let mut i: usize = 0;
    assert(attributes.deep_view() =~= base + photo_attributes(prefix@, all, 0));
    while i < photos.len()
        invariant
            i <= photos.len(),
            all == photos.deep_view(),
            attributes.deep_view() == base + photo_attributes(prefix@, all, i as nat),
        decreases photos.len() - i,
    {
        let mut key = String::from_str(prefix);
        key.append(u64_to_decimal(i as u64 + 1).as_str());
        let ghost before = attributes.deep_view();
        attributes.push((key, photos[i].clone()));
        assert(attributes.deep_view() =~= before.push((key@, photos@[i as int]@)));
        assert(all[i as int] == photos@[i as int]@);
        assert(before.push((key@, all[i as int])) =~= base + photo_attributes(
            prefix@,
            all,
            (i + 1) as nat,
        ));
        i = i + 1;
    }
}

/// Builds the token that is minted from `certificate`. Its attributes come
/// in a fixed order, its photos in upload order, and its image is the photo
/// uploaded last.
pub fn build_certificate_token(
    certificate: &Certificate,
    session: &PhysicalArtSession,
    token_id: u64,
    recipient: Account,
    now: u64,
) -> (token: Token)
    ensures
        token@ == certificate_token(certificate@, session@, token_id, recipient@, now),
{
    let token_hash = generate_token_hash(token_id, certificate.session_id.as_str(), now);
    let mut attributes: Vec<(String, String)> = Vec::new();
    attributes.push(attribute("certificate_id", certificate.certificate_id.clone()));
    attributes.push(attribute("art_title", certificate.art_title.clone()));
    attributes.push(attribute("artist", certificate.username.clone()));
    attributes.push(attribute("description", certificate.description.clone()));
    attributes.push(attribute("verification_hash", certificate.verification_hash.clone()));
    attributes.push(
        attribute("verification_score", u64_to_decimal(certificate.verification_score as u64)),
    );
    attributes.push(
        attribute("authenticity_rating", u64_to_decimal(certificate.authenticity_rating as u64)),
    );
    attributes.push(
        attribute("provenance_score", u64_to_decimal(certificate.provenance_score as u64)),
    );
    attributes.push(
        attribute("community_trust", u64_to_decimal(certificate.community_trust as u64)),
    );
    attributes.push(
        attribute("creation_duration", certificate.metadata.creation_duration.clone()),
    );
    attributes.push(
        attribute("total_actions", u64_to_decimal(certificate.metadata.total_actions as u64)),
    );
    attributes.push(attribute("file_format", certificate.metadata.file_format.clone()));
    attributes.push(attribute("creation_tools", join(&certificate.metadata.creation_tools, ", ")));
    attributes.push(attribute("blockchain", certificate.blockchain.clone()));
    attributes.push(attribute("token_standard", certificate.token_standard.clone()));
    attributes.push(attribute("issuer", certificate.issuer.clone()));
    attributes.push(attribute("issue_date", u64_to_decimal(certificate.issue_date)));
    attributes.push(
        attribute("photo_count", u64_to_decimal(session.uploaded_photos.len() as u64)),
    );
    attributes.push(attribute("session_id", certificate.session_id.clone()));
    attributes.push(attribute("token_hash", token_hash));
    proof {
        let c = certificate@;
        assert(attributes.deep_view() =~= seq![
            ("certificate_id"@, c.certificate_id),
            ("art_title"@, c.art_title),
            ("artist"@, c.username),
            ("description"@, c.description),
            ("verification_hash"@, c.verification_hash),
            ("verification_score"@, decimal(c.verification_score as nat)),
            ("authenticity_rating"@, decimal(c.authenticity_rating as nat)),
            ("provenance_score"@, decimal(c.provenance_score as nat)),
            ("community_trust"@, decimal(c.community_trust as nat)),
            ("creation_duration"@, c.metadata.creation_duration),
            ("total_actions"@, decimal(c.metadata.total_actions as nat)),
            ("file_format"@, c.metadata.file_format),
            ("creation_tools"@, joined(c.metadata.creation_tools, ", "@)),
            ("blockchain"@, c.blockchain),
            ("token_standard"@, c.token_standard),
            ("issuer"@, c.issuer),
            ("issue_date"@, decimal(c.issue_date as nat)),
            ("photo_count"@, decimal(session@.uploaded_photos.len())),
            ("session_id"@, c.session_id),
            ("token_hash"@, token_hash_text(token_id, c.session_id, now)),
        ]);
    }
    push_photo_attributes(&mut attributes, "progress_photo_", &session.uploaded_photos);

    let photos: usize = session.uploaded_photos.len();
    let image = if photos > 0 {
        assert(session@.uploaded_photos.last() == session.uploaded_photos@[photos - 1]@);
        Some(session.uploaded_photos[photos - 1].clone())
    } else {
        None
    };

    let mut name = certificate.art_title.clone();
    name.append(" - Certificate NFT #");
    name.append(u64_to_decimal(token_id).as_str());

    let mut description = String::from_str("Digital certificate NFT for artwork: ");
    description.append(certificate.art_title.as_str());
    description.append(
        ". This NFT represents the authenticated certificate with verification score ",
    );
    description.append(u64_to_decimal(certificate.verification_score as u64).as_str());
    description.append(" and authenticity rating ");
    description.append(u64_to_decimal(certificate.authenticity_rating as u64).as_str());
    description.append(".");

    Token {
        id: token_id,
        owner: recipient,
        metadata: TokenMetadata { name, description: Some(description), image, attributes },
        created_at: now,
        session_id: Some(certificate.session_id.clone()),
    }
}

/// The locator of the metadata of the token `token_id`.
pub fn token_uri(token_id: u64) -> (uri: String)
    ensures
        uri@ == token_uri_text(token_id),
{
    let mut uri = String::from_str("https://originstamp.ic0.app/nft/");
    uri.append(u64_to_decimal(token_id).as_str());
    uri.append("/metadata");
    uri
}

/// Ends a mint whose token is recorded, once the attempt to record the
/// token on its certificate has come back as `link`: on success the token
/// stays; on failure the token is retracted and the supply lowered again
/// before the failure is reported.
pub fn settle_mint(tokens: &mut TokenLedger, token_id: u64, link: Result<bool, LinkError>) -> (r:
    Result<u64, MintError>)
    requires
        old(tokens).wf(),
    ensures
        final(tokens).wf(),
        well_formed(final(tokens)@),
        match link {
            Ok(_) => r == Ok::<u64, MintError>(token_id) && final(tokens)@ == old(tokens)@,
            Err(e) => r == Err::<u64, MintError>(MintError::LinkFailed(e)) && final(tokens)@
                == retracted(old(tokens)@, token_id),
        },
{
    proof {
        tokens.lemma_wf_model();
    }
    match link {
        Ok(_) => Ok(token_id),
        Err(e) => {
            tokens.retract(token_id);
            Err(MintError::LinkFailed(e))
        },
    }
}

/// What a mint returns and leaves behind.
pub struct MintOutcome {
    pub result: Result<u64, MintError>,
    pub certificates: Seq<(Seq<char>, CertificateView)>,
    pub tokens: TokenLedgerView,
}

/// What minting from the certificate `certificate_id` returns and leaves
/// behind.
///
/// A mint that a check of [`mint_fault`] ends changes nothing. Otherwise the
/// counter hands out the next identifier. For an authenticated caller the
/// token is recorded and the certificate points to it. For any other caller
/// the token cannot be recorded on the certificate: the ledger holds the
/// tokens and the supply that it held before, and only the counter has
/// moved.
pub open spec fn mint_outcome(
    certificates: Seq<(Seq<char>, CertificateView)>,
    tokens: TokenLedgerView,
    subscriptions: Seq<(Seq<char>, SubscriptionTier)>,
    sessions: Seq<(Seq<char>, PhysicalArtSessionView)>,
    caller: Seq<u8>,
    canister: Seq<u8>,
    now: u64,
    certificate_id: Seq<char>,
    recipient: AccountView,
) -> MintOutcome {
    match mint_fault(certificates, subscriptions, sessions, certificate_id) {
        Some(e) => MintOutcome { result: Err(e), certificates, tokens },
        None => {
            let certificate = lookup(certificates, certificate_id)->0;
            let session = lookup(sessions, certificate.session_id)->0;
            let token_id = tokens.next_token_id;
            if is_authenticated(caller, canister) {
                MintOutcome {
                    result: Ok(token_id),
                    certificates: upsert(
                        certificates,
                        certificate_id,
                        linked(certificate, token_id, token_uri_text(token_id)),
                    ),
                    tokens: recorded(
                        allocated(tokens),
                        certificate_token(certificate, session, token_id, recipient, now),
                    ),
                }
            } else {
                MintOutcome {
                    result: Err(MintError::LinkFailed(LinkError::Unauthenticated)),
                    certificates,
                    tokens: allocated(tokens),
                }
            }
        },
    }
}

/// Mints a token from the certificate `certificate_id` for `recipient`.
///
/// The steps: check the identifier's shape; find the certificate; require
/// that it is active and has no token yet; read the owner's tier afresh and
/// require that it allows minting; find the session; take the next token
/// identifier; build the token and record it; record the token on the
/// certificate. Where that last step fails, the token is retracted and the
/// supply lowered again before the failure is returned, so a mint writes
/// both ledgers or neither. The identifier of a retracted token is not
/// handed out again.
pub fn mint_certificate_nft(
    certificates: &mut CertificateLedger,
    tokens: &mut TokenLedger,
    subscriptions: &SubscriptionRegistry,
    sessions: &SessionStore,
    context: &CallContext,
    certificate_id: String,
    recipient: Account,
) -> (r: Result<u64, MintError>)
    requires
        old(tokens).wf(),
        old(tokens)@.next_token_id < u64::MAX,
    ensures
        final(tokens).wf(),
        well_formed(final(tokens)@),
        r == mint_outcome(
            old(certificates)@,
            old(tokens)@,
            subscriptions@,
            sessions@,
            context.caller@,
            context.canister@,
            context.time,
            certificate_id@,
            recipient@,
        ).result,
        final(certificates)@ == mint_outcome(
            old(certificates)@,
            old(tokens)@,
            subscriptions@,
            sessions@,
            context.caller@,
            context.canister@,
            context.time,
            certificate_id@,
            recipient@,
        ).certificates,
        final(tokens)@ == mint_outcome(
            old(certificates)@,
            old(tokens)@,
            subscriptions@,
            sessions@,
            context.caller@,
            context.canister@,
            context.time,
            certificate_id@,
            recipient@,
        ).tokens,
{
    proof {
        tokens.lemma_wf_model();
    }
    let (certificate, session) = match prepare_mint(
        certificates,
        subscriptions,
        sessions,
        &certificate_id,
    ) {
        Err(e) => {
            return Err(e);
        },
        Ok(found) => found,
    };
    let token_id = tokens.allocate_token_id();
    let token = build_certificate_token(&certificate, &session, token_id, recipient, context.time);
    proof {
        lemma_retract_undoes_record(tokens@, token@);
    }
    tokens.record(token);
    let link = update_certificate_nft_info(
        certificates,
        context,
        certificate_id,
        token_id,
        token_uri(token_id),
    );
    settle_mint(tokens, token_id, link)
}

} // verus!
