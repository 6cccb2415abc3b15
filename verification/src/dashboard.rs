//! The figures of the dashboard.

use vstd::prelude::*;

use crate::certificates::{get_certificate_count, CertificateLedger};
use crate::physical_art::{get_session_count, SessionStore};
use crate::users::{get_user_count, UserStore};

verus! {

/// How many users, sessions and certificates there are.
#[derive(Clone, Copy, Debug, PartialEq, Eq, Structural)]
pub struct DashboardMetrics {
    pub total_users: usize,
    pub total_sessions: usize,
    pub total_certificates: usize,
}

/// Counts users, sessions and certificates.
pub fn get_dashboard_metrics(
    users: &UserStore,
    sessions: &SessionStore,
    ledger: &CertificateLedger,
) -> (r: DashboardMetrics)
    ensures
        r.total_users == users@.len(),
        r.total_sessions == sessions@.len(),
        r.total_certificates == ledger@.len(),
{
    DashboardMetrics {
        total_users: get_user_count(users),
        total_sessions: get_session_count(sessions),
        total_certificates: get_certificate_count(ledger),
    }
}

} // verus!
