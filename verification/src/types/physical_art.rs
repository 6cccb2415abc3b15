//! Creation sessions of physical art.

use vstd::prelude::*;
use vstd::string::*;

use crate::text::{clone_texts, text_eq};

verus! {

/// State of a creation session.
#[derive(Clone, Copy, Debug, PartialEq, Eq, Structural)]
pub enum SessionStatus {
    Draft,
    Uploading,
    Active,
    Closed,
}

impl SessionStatus {
    /// The word for each state.
    pub open spec fn name(self) -> Seq<char> {
        match self {
            SessionStatus::Draft => "draft"@,
            SessionStatus::Uploading => "uploading"@,
            SessionStatus::Active => "active"@,
            SessionStatus::Closed => "closed"@,
        }
    }

    /// The state that a word stands for.
    pub open spec fn named(text: Seq<char>) -> Option<SessionStatus> {
        if text == "draft"@ {
            Some(SessionStatus::Draft)
        } else if text == "uploading"@ {
            Some(SessionStatus::Uploading)
        } else if text == "active"@ {
            Some(SessionStatus::Active)
        } else if text == "closed"@ {
            Some(SessionStatus::Closed)
        } else {
            None
        }
    }

    /// The word for this state.
    pub fn label(&self) -> (r: String)
        ensures
            r@ == self.name(),
    {
        match self {
            SessionStatus::Draft => String::from_str("draft"),
            SessionStatus::Uploading => String::from_str("uploading"),
            SessionStatus::Active => String::from_str("active"),
            SessionStatus::Closed => String::from_str("closed"),
        }
    }

    /// The state that `text` stands for, if it is the word for one.
    pub fn from_label(text: &String) -> (r: Option<SessionStatus>)
        ensures
            r == SessionStatus::named(text@),
    {
        if text_eq(text, "draft") {
            Some(SessionStatus::Draft)
        } else if text_eq(text, "uploading") {
            Some(SessionStatus::Uploading)
        } else if text_eq(text, "active") {
            Some(SessionStatus::Active)
        } else if text_eq(text, "closed") {
            Some(SessionStatus::Closed)
        } else {
            None
        }
    }
}

/// One creation session: who makes what, and the photos uploaded so far in
/// upload order.
#[derive(Debug, PartialEq, Eq)]
pub struct PhysicalArtSession {
    pub session_id: String,
    pub username: String,
    pub art_title: String,
    pub description: String,
    pub uploaded_photos: Vec<String>,
    pub status: SessionStatus,
    /// Nanoseconds since the epoch.
    pub created_at: u64,
    /// Nanoseconds since the epoch.
    pub updated_at: u64,
}

/// Model of [`PhysicalArtSession`].
pub struct PhysicalArtSessionView {
    pub session_id: Seq<char>,
    pub username: Seq<char>,
    pub art_title: Seq<char>,
    pub description: Seq<char>,
    pub uploaded_photos: Seq<Seq<char>>,
    pub status: SessionStatus,
    pub created_at: u64,
    pub updated_at: u64,
}

impl View for PhysicalArtSession {
    type V = PhysicalArtSessionView;

    open spec fn view(&self) -> PhysicalArtSessionView {
        PhysicalArtSessionView {
            session_id: self.session_id@,
            username: self.username@,
            art_title: self.art_title@,
            description: self.description@,
            uploaded_photos: self.uploaded_photos.deep_view(),
            status: self.status,
            created_at: self.created_at,
            updated_at: self.updated_at,
        }
    }
}

impl DeepView for PhysicalArtSession {
    type V = PhysicalArtSessionView;

    open spec fn deep_view(&self) -> PhysicalArtSessionView {
        self@
    }
}

impl Clone for PhysicalArtSession {
    fn clone(&self) -> (r: PhysicalArtSession)
        ensures
            r@ == self@,
    {
        PhysicalArtSession {
            session_id: self.session_id.clone(),
            username: self.username.clone(),
            art_title: self.art_title.clone(),
            description: self.description.clone(),
            uploaded_photos: clone_texts(&self.uploaded_photos),
            status: self.status,
            created_at: self.created_at,
            updated_at: self.updated_at,
        }
    }
}

} // verus!
