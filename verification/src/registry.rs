//! The registry itself: the admin set, the report store, the audit ledger
//! and the operations that mutate them.
//!
//! Every mutating operation takes the acting identity together with the
//! host's verdict on that identity's proof (`authenticated`), and the current
//! ledger time where it stamps anything. A failed gate aborts with an error
//! and leaves the registry exactly as it was.

use vstd::prelude::*;

use crate::types::ChangeLog;
use crate::types::ChangeLogView;
use crate::types::Identity;
use crate::types::NeedReport;
use crate::types::RegistryError;
use crate::types::ReportView;

verus! {

/// The whole registry: a single state value that the hosting environment
/// persists between calls.
///
/// Reports are stored densely: the report with identifier `i` sits at index
/// `i - 1`, and its audit trail at the same index of `logs`. The sequence
/// allocator's counters are implied: the next identifier is always
/// `reports.len() + 1` and the total count is `reports.len()`, since creation
/// is the only path that allocates an identifier and nothing is ever removed.
pub struct NeedReportsContract {
    pub initialized: bool,
    pub admins: Vec<Identity>,
    pub reports: Vec<NeedReport>,
    pub logs: Vec<Vec<ChangeLog>>,
}

/// The mathematical value of the registry.
#[verifier::ext_equal]
pub struct RegistryView {
    /// Whether the sequence allocator was ever written: set by `initialize`
    /// and by the first `create_report`, and never cleared.
    pub initialized: bool,
    pub admins: Seq<Identity>,
    pub reports: Seq<ReportView>,
    pub logs: Seq<Seq<ChangeLogView>>,
}

impl View for NeedReportsContract {
    type V = RegistryView;

    open spec fn view(&self) -> RegistryView {
        RegistryView {
            initialized: self.initialized,
            admins: self.admins@,
            reports: self.reports.deep_view(),
            logs: self.logs.deep_view(),
        }
    }
}

/// The audit ledger after appending `entry` to the trail of `report_id`:
/// the trail grows at its end, or comes into being with the single entry
/// when the report identifier is the one just past the stored range.
pub open spec fn logs_after_append(
    logs: Seq<Seq<ChangeLogView>>,
    report_id: u64,
    entry: ChangeLogView,
) -> Seq<Seq<ChangeLogView>> {
    if report_id <= logs.len() {
        logs.update(report_id - 1, logs[report_id - 1].push(entry))
    } else {
        logs.push(seq![entry])
    }
}

/// The admin set after an attempt to add `new_admin`: unchanged if already
/// present, grown by one at the end otherwise.
pub open spec fn admins_after_add(admins: Seq<Identity>, new_admin: Identity) -> Seq<Identity> {
    if admins.contains(new_admin) {
        admins
    } else {
        admins.push(new_admin)
    }
}

impl NeedReportsContract {
    /// Well-formedness: identifiers are dense (the report at index `i` has
    /// identifier `i + 1`), every report has its audit trail slot, and a
    /// registry whose allocator was never written holds nothing at all.
    pub open spec fn wf(&self) -> bool {
        &&& self@.logs.len() == self@.reports.len()
        &&& forall|i: int|
            0 <= i < self@.reports.len() ==> (#[trigger] self@.reports[i]).id == i + 1
        &&& !self@.initialized ==> self@.reports.len() == 0 && self@.admins.len() == 0
    }

    /// A freshly deployed registry: nothing stored, nobody an admin, not yet
    /// initialized.
    pub fn new() -> (r: Self)
        ensures
            r.wf(),
            !r@.initialized,
            r@.admins == Seq::<Identity>::empty(),
            r@.reports == Seq::<ReportView>::empty(),
            r@.logs == Seq::<Seq<ChangeLogView>>::empty(),
    {
        let r = NeedReportsContract {
            initialized: false,
            admins: Vec::new(),
            reports: Vec::new(),
            logs: Vec::new(),
        };
        proof {
            assert(r@.reports =~= Seq::<ReportView>::empty());
            assert(r@.logs =~= Seq::<Seq<ChangeLogView>>::empty());
        }
        r
    }

    /// Runs exactly once per deployment: sets the admin set and the counters.
    /// Aborts with `AlreadyInitialized`, changing nothing, if the sequence
    /// allocator was ever written before.
    pub fn initialize(&mut self, admins: Vec<Identity>) -> (r: Result<(), RegistryError>)
        requires
            old(self).wf(),
        ensures
            final(self).wf(),
            old(self)@.initialized ==> r == Err::<(), RegistryError>(
                RegistryError::AlreadyInitialized,
            ) && final(self)@ == old(self)@,
            !old(self)@.initialized ==> {
                &&& r == Ok::<(), RegistryError>(())
                &&& final(self)@.initialized
                &&& final(self)@.admins == admins@
                &&& final(self)@.reports == old(self)@.reports
                &&& final(self)@.logs == old(self)@.logs
            },
    {
        if self.initialized {
            return Err(RegistryError::AlreadyInitialized);
        }
        self.initialized = true;
        self.admins = admins;
        Ok(())
    }

    /// Linear membership test over the admin set. Free to call: no proof and
    /// no authorization is required to ask.
    pub fn is_admin(&self, address: Identity) -> (r: bool)
        ensures
            r == self@.admins.contains(address),
    {
        let mut i: usize = 0;
        while i < self.admins.len()
            invariant
                0 <= i <= self.admins.len(),
                forall|j: int| 0 <= j < i ==> self.admins@[j] != address,
            decreases self.admins.len() - i,
        {
            if self.admins[i] == address {
                return true;
            }
            i = i + 1;
        }
        false
    }

    /// Grows the admin set. Demands the caller's identity proof and that the
    /// caller already is an admin; adding an identity that is already present
    /// is a no-op that reports `false`.
    pub fn add_admin(
        &mut self,
        current_admin: Identity,
        authenticated: bool,
        new_admin: Identity,
    ) -> (r: Result<bool, RegistryError>)
        requires
            old(self).wf(),
        ensures
            final(self).wf(),
            !authenticated ==> r == Err::<bool, RegistryError>(
                RegistryError::AuthenticationFailure,
            ) && final(self)@ == old(self)@,
            authenticated && !old(self)@.admins.contains(current_admin) ==> r == Err::<
                bool,
                RegistryError,
            >(RegistryError::AuthorizationFailure) && final(self)@ == old(self)@,
            authenticated && old(self)@.admins.contains(current_admin) ==> {
                &&& r == Ok::<bool, RegistryError>(!old(self)@.admins.contains(new_admin))
                &&& final(self)@.admins == admins_after_add(old(self)@.admins, new_admin)
                &&& final(self)@.initialized == old(self)@.initialized
                &&& final(self)@.reports == old(self)@.reports
                &&& final(self)@.logs == old(self)@.logs
            },
    {
        if !authenticated {
            return Err(RegistryError::AuthenticationFailure);
        }
        if !self.is_admin(current_admin) {
            return Err(RegistryError::AuthorizationFailure);
        }
        if self.is_admin(new_admin) {
            return Ok(false);
        }
        self.admins.push(new_admin);
        Ok(true)
    }

    /// Appends a batch of audit entries, in order, to the existing trail of
    /// `report_id`. Touches nothing else.
    pub(crate) fn append_entries(&mut self, report_id: u64, entries: Vec<ChangeLog>)
        requires
            1 <= report_id,
            report_id <= old(self)@.logs.len(),
        ensures
            final(self)@.initialized == old(self)@.initialized,
            final(self)@.admins == old(self)@.admins,
            final(self)@.reports == old(self)@.reports,
            final(self)@.logs == old(self)@.logs.update(
                report_id - 1,
                old(self)@.logs[report_id - 1] + entries.deep_view(),
            ),
    {
        let ghost appended: Seq<ChangeLogView> = entries.deep_view();
        let idx: usize = (report_id - 1) as usize;
        let mut trail = self.logs.remove(idx);
        let ghost base: Seq<ChangeLogView> = trail.deep_view();
        let mut entries = entries;
        trail.append(&mut entries);
        proof {
            assert(trail.deep_view() =~= base + appended);
        }
        self.logs.insert(idx, trail);
        proof {
            assert(self@.logs =~= old(self)@.logs.update(report_id - 1, base + appended));
        }
    }

    /// Appends one audit entry to the trail of `report_id`, creating the
    /// trail on first use. Touches nothing else.
    pub(crate) fn log_change(
        &mut self,
        report_id: u64,
        changed_by: Identity,
        field_changed: String,
        old_value: String,
        new_value: String,
        reason: String,
        now: u64,
    )
        requires
            1 <= report_id,
            report_id <= old(self)@.logs.len() + 1,
        ensures
            final(self)@.initialized == old(self)@.initialized,
            final(self)@.admins == old(self)@.admins,
            final(self)@.reports == old(self)@.reports,
            final(self)@.logs == logs_after_append(
                old(self)@.logs,
                report_id,
                (ChangeLogView {
                    report_id,
                    changed_by,
                    field_changed: field_changed@,
                    old_value: old_value@,
                    new_value: new_value@,
                    timestamp: now,
                    reason: reason@,
                }),
            ),
    {
        let entry = ChangeLog {
            report_id,
            changed_by,
            field_changed,
            old_value,
            new_value,
            timestamp: now,
            reason,
        };
        let idx: usize = (report_id - 1) as usize;
        if idx < self.logs.len() {
            let mut trail = self.logs.remove(idx);
            trail.push(entry);
            self.logs.insert(idx, trail);
            proof {
                assert(self@.logs =~~= logs_after_append(old(self)@.logs, report_id, entry@));
            }
        } else {
            let mut trail: Vec<ChangeLog> = Vec::new();
            trail.push(entry);
            self.logs.push(trail);
            proof {
                assert(self@.logs =~~= logs_after_append(old(self)@.logs, report_id, entry@));
            }
        }
    }
}

} // verus!
