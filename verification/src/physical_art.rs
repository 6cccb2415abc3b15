//! The session store: creation sessions and the photos uploaded to them.

use vstd::prelude::*;
use vstd::string::*;

use crate::error::NotFound;
use crate::store::{lookup, upsert, values_of, Registry};
use crate::types::physical_art::{PhysicalArtSession, PhysicalArtSessionView, SessionStatus};
use crate::utils::{generate_random_id, random_id_text};

verus! {

/// Creation sessions by identifier, in the order of creation.
pub type SessionStore = Registry<PhysicalArtSession>;

/// A session as it is created: a draft without photos.
pub open spec fn new_session(
    session_id: Seq<char>,
    username: Seq<char>,
    art_title: Seq<char>,
    description: Seq<char>,
    now: u64,
) -> PhysicalArtSessionView {
    PhysicalArtSessionView {
        session_id,
        username,
        art_title,
        description,
        uploaded_photos: Seq::empty(),
        status: SessionStatus::Draft,
        created_at: now,
        updated_at: now,
    }
}

/// Opens a session for `username` at `now` and returns its identifier, which
/// is drawn from the time.
pub fn create_physical_art_session(
    sessions: &mut SessionStore,
    now: u64,
    username: String,
    art_title: String,
    description: String,
) -> (r: Result<String, String>)
    ensures
        r is Ok,
        r->Ok_0@ == random_id_text(now),
        final(sessions)@ == upsert(
            old(sessions)@,
            random_id_text(now),
            new_session(random_id_text(now), username@, art_title@, description@, now),
        ),
{
    let session_id = generate_random_id(now);
    let session = PhysicalArtSession {
        session_id: session_id.clone(),
        username,
        art_title,
        description,
        uploaded_photos: Vec::new(),
        status: SessionStatus::Draft,
        created_at: now,
        updated_at: now,
    };
    assert(session.uploaded_photos.deep_view() =~= Seq::<Seq<char>>::empty());
    sessions.insert(session_id.clone(), session);
    Ok(session_id)
}

/// `session` with one more photo, touched at `now`.
pub open spec fn with_photo(session: PhysicalArtSessionView, photo_url: Seq<char>, now: u64) -> PhysicalArtSessionView {
    PhysicalArtSessionView {
        uploaded_photos: session.uploaded_photos.push(photo_url),
        updated_at: now,
        ..session
    }
}

/// Records an uploaded photo at the end of the session's photos.
pub fn upload_photo_to_session(
    sessions: &mut SessionStore,
    now: u64,
    session_id: String,
    photo_url: String,
) -> (r: Result<bool, NotFound>)
    ensures
        match lookup(old(sessions)@, session_id@) {
            None => r is Err && final(sessions)@ == old(sessions)@,
            Some(s) => r == Ok::<bool, NotFound>(true) && final(sessions)@ == upsert(
                old(sessions)@,
                session_id@,
                with_photo(s, photo_url@, now),
            ),
        },
{
    let mut session = match sessions.get(&session_id) {
        None => {
            return Err(NotFound);
        },
        Some(s) => s.clone(),
    };
    let ghost before = session.uploaded_photos.deep_view();
    session.uploaded_photos.push(photo_url);
    assert(session.uploaded_photos.deep_view() =~= before.push(photo_url@));
    session.updated_at = now;
    sessions.insert(session_id, session);
    Ok(true)
}

/// The session with the given identifier.
pub fn get_session_details(sessions: &SessionStore, session_id: &String) -> (r: Option<
    PhysicalArtSession,
>)
    ensures
        match lookup(sessions@, session_id@) {
            Some(s) => r is Some && r->0@ == s,
            None => r is None,
        },
{
    match sessions.get(session_id) {
        Some(s) => Some(s.clone()),
        None => None,
    }
}

/// The sessions of one user, as a predicate.
pub open spec fn session_of(username: Seq<char>) -> spec_fn(PhysicalArtSessionView) -> bool {
    |s: PhysicalArtSessionView| s.username == username
}

/// The sessions of `username`, in the order of creation.
pub fn get_user_sessions(sessions: &SessionStore, username: &String) -> (r: Vec<PhysicalArtSession>)
    ensures
        r.deep_view() == values_of(sessions@).filter(session_of(username@)),
{
    let mut out: Vec<PhysicalArtSession> = Vec::new();
    let mut i: usize = 0;
    let ghost all = values_of(sessions@);
    assert(all.subrange(0, 0) =~= Seq::<PhysicalArtSessionView>::empty());
    assert(out.deep_view() =~= Seq::<PhysicalArtSessionView>::empty());
    while i < sessions.len()
        invariant
            i <= sessions@.len(),
            all == values_of(sessions@),
            out.deep_view() == all.subrange(0, i as int).filter(session_of(username@)),
        decreases sessions@.len() - i,
    {
        let s = sessions.value_at(i);
        proof {
            let a = all.subrange(0, i as int);
            let b = all.subrange(0, i as int + 1);
            assert(b =~= a.push(s@));
            assert(b.drop_last() =~= a);
            reveal(Seq::filter);
        }
        if s.username == *username {
            let ghost before = out.deep_view();
            out.push(s.clone());
            assert(out.deep_view() =~= before.push(s@));
        }
        i = i + 1;
    }
    assert(all.subrange(0, sessions@.len() as int) =~= all);
    out
}

/// Number of sessions in the store.
pub fn get_session_count(sessions: &SessionStore) -> (n: usize)
    ensures
        n == sessions@.len(),
{
    sessions.len()
}

/// `session` in another state, touched at `now`.
pub open spec fn with_status(session: PhysicalArtSessionView, status: SessionStatus, now: u64) -> PhysicalArtSessionView {
    PhysicalArtSessionView { status, updated_at: now, ..session }
}

/// Moves the session to `status`.
pub fn update_session_status(
    sessions: &mut SessionStore,
    now: u64,
    session_id: String,
    status: SessionStatus,
) -> (r: Result<bool, NotFound>)
    ensures
        match lookup(old(sessions)@, session_id@) {
            None => r is Err && final(sessions)@ == old(sessions)@,
            Some(s) => r == Ok::<bool, NotFound>(true) && final(sessions)@ == upsert(
                old(sessions)@,
                session_id@,
                with_status(s, status, now),
            ),
        },
{
    let mut session = match sessions.get(&session_id) {
        None => {
            return Err(NotFound);
        },
        Some(s) => s.clone(),
    };
    session.status = status;
    session.updated_at = now;
    sessions.insert(session_id, session);
    Ok(true)
}

/// Every photo but `photo_url`, as a predicate.
pub open spec fn other_than(photo_url: Seq<char>) -> spec_fn(Seq<char>) -> bool {
    |u: Seq<char>| u != photo_url
}

/// `session` without the photo `photo_url`, touched at `now`.
pub open spec fn without_photo(session: PhysicalArtSessionView, photo_url: Seq<char>, now: u64) -> PhysicalArtSessionView {
    PhysicalArtSessionView {
        uploaded_photos: session.uploaded_photos.filter(other_than(photo_url)),
        updated_at: now,
        ..session
    }
}

/// The photos other than `photo_url`, in order.
fn photos_without(photos: &Vec<String>, photo_url: &String) -> (out: Vec<String>)
    ensures
        out.deep_view() == photos.deep_view().filter(other_than(photo_url@)),
{
    let mut out: Vec<String> = Vec::new();
    let mut i: usize = 0;
    let ghost all = photos.deep_view();
    assert(all.subrange(0, 0) =~= Seq::<Seq<char>>::empty());
    assert(out.deep_view() =~= Seq::<Seq<char>>::empty());
    while i < photos.len()
        invariant
            i <= photos.len(),
            all == photos.deep_view(),
            out.deep_view() == all.subrange(0, i as int).filter(other_than(photo_url@)),
        decreases photos.len() - i,
    {
        proof {
            let a = all.subrange(0, i as int);
            let b = all.subrange(0, i as int + 1);
            assert(b =~= a.push(photos@[i as int]@));
            assert(b.drop_last() =~= a);
            reveal(Seq::filter);
        }
        if !(photos[i] == *photo_url) {
            let ghost before = out.deep_view();
            out.push(photos[i].clone());
            assert(out.deep_view() =~= before.push(photos@[i as int]@));
        }
        i = i + 1;
    }
    assert(all.subrange(0, photos.len() as int) =~= all);
    out
}

/// Takes every occurrence of `photo_url` out of the session's photos; the
/// others keep their order.
pub fn remove_photo_from_session(
    sessions: &mut SessionStore,
    now: u64,
    session_id: String,
    photo_url: String,
) -> (r: Result<bool, NotFound>)
    ensures
        match lookup(old(sessions)@, session_id@) {
            None => r is Err && final(sessions)@ == old(sessions)@,
            Some(s) => r == Ok::<bool, NotFound>(true) && final(sessions)@ == upsert(
                old(sessions)@,
                session_id@,
                without_photo(s, photo_url@, now),
            ),
        },
{
    let session = match sessions.get(&session_id) {
        None => {
            return Err(NotFound);
        },
        Some(s) => s,
    };
    let updated = PhysicalArtSession {
        session_id: session.session_id.clone(),
        username: session.username.clone(),
        art_title: session.art_title.clone(),
        description: session.description.clone(),
        uploaded_photos: photos_without(&session.uploaded_photos, &photo_url),
        status: session.status,
        created_at: session.created_at,
        updated_at: now,
    };
    sessions.insert(session_id, updated);
    Ok(true)
}

} // verus!
