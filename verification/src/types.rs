//! The registry's data model: reports, audit entries, statistics, the
//! identities that act on them, and the errors a call can abort with.

use vstd::prelude::*;

verus! {

/// A principal acting on the registry: a creator, an administrator or a
/// donor-side updater. The hosting environment proves, per call, that the
/// caller controls the identity it names; the registry only ever compares
/// identities for equality.
#[derive(Clone, Copy, PartialEq, Eq, Structural, Debug)]
pub struct Identity(pub u64);

/// The hard aborts: each leaves the registry exactly as it was.
#[derive(Clone, Copy, PartialEq, Eq, Structural, Debug)]
pub enum RegistryError {
    /// A second attempt to initialize an already-initialized registry.
    AlreadyInitialized,
    /// The host could not prove that the caller controls the acting identity.
    AuthenticationFailure,
    /// The acting identity is proven but lacks the role the call demands.
    AuthorizationFailure,
}

/// A single need report. The identifier is assigned once and never changes;
/// the status is free text (the lifecycle vocabulary is "pending",
/// "verified", "funded", "completed", "rejected", but any string an
/// administrator supplies is stored as given).
#[derive(Debug)]
pub struct NeedReport {
    pub id: u64,
    pub creator: Identity,
    pub title: String,
    pub description: String,
    pub location: String,
    pub category: String,
    pub amount_needed: u64,
    pub amount_raised: u64,
    pub status: String,
    pub created_at: u64,
    pub updated_at: u64,
    pub image_urls: Vec<String>,
    pub verification_notes: String,
}

/// The mathematical value of a `NeedReport`: every text field as its
/// character sequence.
#[verifier::ext_equal]
pub struct ReportView {
    pub id: u64,
    pub creator: Identity,
    pub title: Seq<char>,
    pub description: Seq<char>,
    pub location: Seq<char>,
    pub category: Seq<char>,
    pub amount_needed: u64,
    pub amount_raised: u64,
    pub status: Seq<char>,
    pub created_at: u64,
    pub updated_at: u64,
    pub image_urls: Seq<Seq<char>>,
    pub verification_notes: Seq<char>,
}

impl View for NeedReport {
    type V = ReportView;

    open spec fn view(&self) -> ReportView {
        ReportView {
            id: self.id,
            creator: self.creator,
            title: self.title@,
            description: self.description@,
            location: self.location@,
            category: self.category@,
            amount_needed: self.amount_needed,
            amount_raised: self.amount_raised,
            status: self.status@,
            created_at: self.created_at,
            updated_at: self.updated_at,
            image_urls: self.image_urls.deep_view(),
            verification_notes: self.verification_notes@,
        }
    }
}

impl DeepView for NeedReport {
    type V = ReportView;

    open spec fn deep_view(&self) -> ReportView {
        self.view()
    }
}

impl Clone for NeedReport {
    fn clone(&self) -> (r: Self)
        ensures
            r@ == self@,
    {
        let r = NeedReport {
            id: self.id,
            creator: self.creator,
            title: self.title.clone(),
            description: self.description.clone(),
            location: self.location.clone(),
            category: self.category.clone(),
            amount_needed: self.amount_needed,
            amount_raised: self.amount_raised,
            status: self.status.clone(),
            created_at: self.created_at,
            updated_at: self.updated_at,
            image_urls: self.image_urls.clone(),
            verification_notes: self.verification_notes.clone(),
        };
        proof {
            assert(r.image_urls.deep_view() =~~= self.image_urls.deep_view());
            assert(r@ =~~= self@);
        }
        r
    }
}

/// One immutable audit record: a single field mutation on one report, with
/// the author, the rendered old and new values, the ledger time and the
/// caller-supplied reason.
#[derive(Debug)]
pub struct ChangeLog {
    pub report_id: u64,
    pub changed_by: Identity,
    pub field_changed: String,
    pub old_value: String,
    pub new_value: String,
    pub timestamp: u64,
    pub reason: String,
}

/// The mathematical value of a `ChangeLog` entry.
#[verifier::ext_equal]
pub struct ChangeLogView {
    pub report_id: u64,
    pub changed_by: Identity,
    pub field_changed: Seq<char>,
    pub old_value: Seq<char>,
    pub new_value: Seq<char>,
    pub timestamp: u64,
    pub reason: Seq<char>,
}

impl View for ChangeLog {
    type V = ChangeLogView;

    open spec fn view(&self) -> ChangeLogView {
        ChangeLogView {
            report_id: self.report_id,
            changed_by: self.changed_by,
            field_changed: self.field_changed@,
            old_value: self.old_value@,
            new_value: self.new_value@,
            timestamp: self.timestamp,
            reason: self.reason@,
        }
    }
}

impl DeepView for ChangeLog {
    type V = ChangeLogView;

    open spec fn deep_view(&self) -> ChangeLogView {
        self.view()
    }
}

impl Clone for ChangeLog {
    fn clone(&self) -> (r: Self)
        ensures
            r == *self,
    {
        ChangeLog {
            report_id: self.report_id,
            changed_by: self.changed_by,
            field_changed: self.field_changed.clone(),
            old_value: self.old_value.clone(),
            new_value: self.new_value.clone(),
            timestamp: self.timestamp,
            reason: self.reason.clone(),
        }
    }
}

/// Platform-wide statistics, recomputed from scratch on every query and
/// never persisted.
#[derive(Clone, Copy, PartialEq, Eq, Structural, Debug)]
pub struct ReportStats {
    pub total_reports: u64,
    pub pending_reports: u64,
    pub verified_reports: u64,
    pub funded_reports: u64,
    pub completed_reports: u64,
    pub total_amount_needed: u64,
    pub total_amount_raised: u64,
}

} // verus!
