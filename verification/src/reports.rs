//! Creation, lookup and mutation of individual reports, with field-level
//! audit logging.

use vstd::prelude::*;

use crate::registry::NeedReportsContract;
use crate::registry::RegistryView;
use crate::types::ChangeLog;
use crate::types::ChangeLogView;
use crate::types::Identity;
use crate::types::NeedReport;
use crate::types::RegistryError;
use crate::types::ReportView;

verus! {

/// The record a successful creation stores: status "pending", nothing raised
/// yet, both timestamps at the creation instant, no verification notes.
pub open spec fn fresh_report(
    id: u64,
    creator: Identity,
    title: Seq<char>,
    description: Seq<char>,
    location: Seq<char>,
    category: Seq<char>,
    amount_needed: u64,
    image_urls: Seq<Seq<char>>,
    now: u64,
) -> ReportView {
    ReportView {
        id,
        creator,
        title,
        description,
        location,
        category,
        amount_needed,
        amount_raised: 0,
        status: "pending"@,
        created_at: now,
        updated_at: now,
        image_urls,
        verification_notes: ""@,
    }
}

/// The single audit entry a successful creation appends.
pub open spec fn creation_entry(
    id: u64,
    creator: Identity,
    title: Seq<char>,
    now: u64,
) -> ChangeLogView {
    ChangeLogView {
        report_id: id,
        changed_by: creator,
        field_changed: "created"@,
        old_value: ""@,
        new_value: title,
        timestamp: now,
        reason: "Initial report creation"@,
    }
}

/// One audit entry for one overwritten field.
pub open spec fn field_entry(
    report_id: u64,
    changed_by: Identity,
    field_changed: Seq<char>,
    old_value: Seq<char>,
    new_value: Seq<char>,
    reason: Seq<char>,
    now: u64,
) -> ChangeLogView {
    ChangeLogView {
        report_id,
        changed_by,
        field_changed,
        old_value,
        new_value,
        timestamp: now,
        reason,
    }
}

/// The report after a partial update: every supplied field overwritten,
/// every omitted field kept, and the update instant stamped.
pub open spec fn applied_update(
    rep: ReportView,
    title: Option<Seq<char>>,
    description: Option<Seq<char>>,
    location: Option<Seq<char>>,
    category: Option<Seq<char>>,
    amount_needed: Option<u64>,
    image_urls: Option<Seq<Seq<char>>>,
    now: u64,
) -> ReportView {
    ReportView {
        id: rep.id,
        creator: rep.creator,
        title: match title {
            Some(t) => t,
            None => rep.title,
        },
        description: match description {
            Some(d) => d,
            None => rep.description,
        },
        location: match location {
            Some(l) => l,
            None => rep.location,
        },
        category: match category {
            Some(c) => c,
            None => rep.category,
        },
        amount_needed: match amount_needed {
            Some(a) => a,
            None => rep.amount_needed,
        },
        amount_raised: rep.amount_raised,
        status: rep.status,
        created_at: rep.created_at,
        updated_at: now,
        image_urls: match image_urls {
            Some(u) => u,
            None => rep.image_urls,
        },
        verification_notes: rep.verification_notes,
    }
}

/// The audit entries a partial update appends, one per supplied field and
/// none for an omitted one, in the fixed order title, description, location,
/// category, amount needed, images. A supplied field is logged even when its
/// new value equals the old one. Description, amount and image changes are
/// recorded as fixed placeholder text rather than true diffs: a preserved
/// quirk that downstream log consumers may depend on.
pub open spec fn update_entries(
    rep: ReportView,
    report_id: u64,
    updater: Identity,
    title: Option<Seq<char>>,
    description: Option<Seq<char>>,
    location: Option<Seq<char>>,
    category: Option<Seq<char>>,
    amount_needed: Option<u64>,
    image_urls: Option<Seq<Seq<char>>>,
    reason: Seq<char>,
    now: u64,
) -> Seq<ChangeLogView> {
    title_entries(rep, report_id, updater, title, reason, now) + description_entries(
        report_id,
        updater,
        description,
        reason,
        now,
    ) + location_entries(rep, report_id, updater, location, reason, now) + category_entries(
        rep,
        report_id,
        updater,
        category,
        reason,
        now,
    ) + amount_needed_entries(report_id, updater, amount_needed, reason, now) + image_entries(
        report_id,
        updater,
        image_urls,
        reason,
        now,
    )
}

/// How many of the six optional fields a partial update supplies.
pub open spec fn supplied_field_count(
    title: Option<Seq<char>>,
    description: Option<Seq<char>>,
    location: Option<Seq<char>>,
    category: Option<Seq<char>>,
    amount_needed: Option<u64>,
    image_urls: Option<Seq<Seq<char>>>,
) -> int {
    (match title {
        Some(_) => 1int,
        None => 0int,
    }) + (match description {
        Some(_) => 1int,
        None => 0int,
    }) + (match location {
        Some(_) => 1int,
        None => 0int,
    }) + (match category {
        Some(_) => 1int,
        None => 0int,
    }) + (match amount_needed {
        Some(_) => 1int,
        None => 0int,
    }) + (match image_urls {
        Some(_) => 1int,
        None => 0int,
    })
}

/// The entries contributed by the title field: the true old and new titles.
pub open spec fn title_entries(
    rep: ReportView,
    report_id: u64,
    updater: Identity,
    title: Option<Seq<char>>,
    reason: Seq<char>,
    now: u64,
) -> Seq<ChangeLogView> {
    match title {
        Some(t) => seq![field_entry(report_id, updater, "title"@, rep.title, t, reason, now)],
        None => seq![],
    }
}

/// The entries contributed by the description field: placeholder text on
/// both sides.
pub open spec fn description_entries(
    report_id: u64,
    updater: Identity,
    description: Option<Seq<char>>,
    reason: Seq<char>,
    now: u64,
) -> Seq<ChangeLogView> {
    match description {
        Some(_) => seq![
            field_entry(
                report_id,
                updater,
                "description"@,
                "[description_updated]"@,
                "[new_description]"@,
                reason,
                now,
            ),
        ],
        None => seq![],
    }
}

/// The entries contributed by the location field: the true old and new
/// locations.
pub open spec fn location_entries(
    rep: ReportView,
    report_id: u64,
    updater: Identity,
    location: Option<Seq<char>>,
    reason: Seq<char>,
    now: u64,
) -> Seq<ChangeLogView> {
    match location {
        Some(l) => seq![
            field_entry(report_id, updater, "location"@, rep.location, l, reason, now),
        ],
        None => seq![],
    }
}

/// The entries contributed by the category field: the true old and new
/// categories.
pub open spec fn category_entries(
    rep: ReportView,
    report_id: u64,
    updater: Identity,
    category: Option<Seq<char>>,
    reason: Seq<char>,
    now: u64,
) -> Seq<ChangeLogView> {
    match category {
        Some(c) => seq![
            field_entry(report_id, updater, "category"@, rep.category, c, reason, now),
        ],
        None => seq![],
    }
}

/// The entries contributed by the funding goal: placeholder text on both
/// sides.
pub open spec fn amount_needed_entries(
    report_id: u64,
    updater: Identity,
    amount_needed: Option<u64>,
    reason: Seq<char>,
    now: u64,
) -> Seq<ChangeLogView> {
    match amount_needed {
        Some(_) => seq![
            field_entry(
                report_id,
                updater,
                "amount_needed"@,
                "amount_updated"@,
                "new_amount"@,
                reason,
                now,
            ),
        ],
        None => seq![],
    }
}

/// The entries contributed by the image list: placeholder text on both
/// sides.
pub open spec fn image_entries(
    report_id: u64,
    updater: Identity,
    image_urls: Option<Seq<Seq<char>>>,
    reason: Seq<char>,
    now: u64,
) -> Seq<ChangeLogView> {
    match image_urls {
        Some(_) => seq![
            field_entry(
                report_id,
                updater,
                "images"@,
                "[images_updated]"@,
                "[new_images]"@,
                reason,
                now,
            ),
        ],
        None => seq![],
    }
}

/// The report after an administrator writes a new status: the status and
/// verification notes overwritten, the update instant stamped, everything
/// else kept.
pub open spec fn status_updated(
    rep: ReportView,
    new_status: Seq<char>,
    notes: Seq<char>,
    now: u64,
) -> ReportView {
    ReportView {
        id: rep.id,
        creator: rep.creator,
        title: rep.title,
        description: rep.description,
        location: rep.location,
        category: rep.category,
        amount_needed: rep.amount_needed,
        amount_raised: rep.amount_raised,
        status: new_status,
        created_at: rep.created_at,
        updated_at: now,
        image_urls: rep.image_urls,
        verification_notes: notes,
    }
}

/// The status after a donation is recorded: "funded" when the new amount
/// reaches the goal and the report stood exactly at "verified"; otherwise
/// unchanged — in particular a "pending" report never advances this way.
pub open spec fn status_after_donation(rep: ReportView, new_amount: u64) -> Seq<char> {
    if new_amount >= rep.amount_needed && rep.status == "verified"@ {
        "funded"@
    } else {
        rep.status
    }
}

/// The report after a donation is recorded: the raised amount overwritten,
/// the one automatic lifecycle transition applied, the update instant
/// stamped.
pub open spec fn donation_applied(rep: ReportView, new_amount: u64, now: u64) -> ReportView {
    ReportView {
        id: rep.id,
        creator: rep.creator,
        title: rep.title,
        description: rep.description,
        location: rep.location,
        category: rep.category,
        amount_needed: rep.amount_needed,
        amount_raised: new_amount,
        status: status_after_donation(rep, new_amount),
        created_at: rep.created_at,
        updated_at: now,
        image_urls: rep.image_urls,
        verification_notes: rep.verification_notes,
    }
}

/// The authorization gate for partial updates: the report's creator, or any
/// member of the admin set, may update it.
pub open spec fn may_update(v: RegistryView, report_id: u64, updater: Identity) -> bool {
    v.reports[report_id - 1].creator == updater || v.admins.contains(updater)
}

impl NeedReportsContract {
    /// Creates a new report under the next identifier (`1` on a fresh
    /// registry, counting up from there) and appends the creation entry to
    /// its audit trail. Demands only the creator's identity proof; no
    /// admin role and no prior `initialize` is needed.
    pub fn create_report(
        &mut self,
        creator: Identity,
        authenticated: bool,
        title: String,
        description: String,
        location: String,
        category: String,
        amount_needed: u64,
        image_urls: Vec<String>,
        now: u64,
    ) -> (r: Result<u64, RegistryError>)
        requires
            old(self).wf(),
            old(self)@.reports.len() + 1 <= u64::MAX,
        ensures
            final(self).wf(),
            !authenticated ==> r == Err::<u64, RegistryError>(
                RegistryError::AuthenticationFailure,
            ) && final(self)@ == old(self)@,
            authenticated ==> {
                &&& r == Ok::<u64, RegistryError>((old(self)@.reports.len() + 1) as u64)
                &&& final(self)@.initialized
                &&& final(self)@.admins == old(self)@.admins
                &&& final(self)@.reports == old(self)@.reports.push(
                    fresh_report(
                        (old(self)@.reports.len() + 1) as u64,
                        creator,
                        title@,
                        description@,
                        location@,
                        category@,
                        amount_needed,
                        image_urls.deep_view(),
                        now,
                    ),
                )
                &&& final(self)@.logs == old(self)@.logs.push(
                    seq![
                        creation_entry(
                            (old(self)@.reports.len() + 1) as u64,
                            creator,
                            title@,
                            now,
                        ),
                    ],
                )
            },
    {
        if !authenticated {
            return Err(RegistryError::AuthenticationFailure);
        }
        let report_id: u64 = (self.reports.len() as u64) + 1;
        let report = NeedReport {
            id: report_id,
            creator,
            title: title.clone(),
            description,
            location,
            category,
            amount_needed,
            amount_raised: 0,
            status: "pending".to_owned(),
            created_at: now,
            updated_at: now,
            image_urls,
            verification_notes: "".to_owned(),
        };
        proof {
            assert(report@ =~~= fresh_report(
                report_id,
                creator,
                title@,
                description@,
                location@,
                category@,
                amount_needed,
                report.image_urls.deep_view(),
                now,
            ));
        }
        self.reports.push(report);
        self.initialized = true;
        proof {
            assert(self@.reports =~~= old(self)@.reports.push(
                fresh_report(
                    report_id,
                    creator,
                    title@,
                    description@,
                    location@,
                    category@,
                    amount_needed,
                    image_urls.deep_view(),
                    now,
                ),
            ));
        }
        self.log_change(
            report_id,
            creator,
            "created".to_owned(),
            "".to_owned(),
            title,
            "Initial report creation".to_owned(),
            now,
        );
        proof {
            assert(self@.logs =~~= old(self)@.logs.push(
                seq![creation_entry(report_id, creator, title@, now)],
            ));
        }
        Ok(report_id)
    }

    /// Plain lookup by identifier: the stored record for identifiers in the
    /// allocated range, absent otherwise. Never aborts and changes nothing.
    pub fn get_report(&self, report_id: u64) -> (r: Option<NeedReport>)
        requires
            self.wf(),
        ensures
            match r {
                Some(rep) => 1 <= report_id && report_id <= self@.reports.len() && rep@
                    == self@.reports[report_id - 1],
                None => !(1 <= report_id && report_id <= self@.reports.len()),
            },
    {
        if report_id >= 1 && report_id <= self.reports.len() as u64 {
            let idx: usize = (report_id - 1) as usize;
            Some(self.reports[idx].clone())
        } else {
            None
        }
    }

    /// Partial update of a report by its creator or an admin. Demands the
    /// updater's identity proof first; a missing report then reports `false`
    /// without aborting, and only after the lookup is the creator-or-admin
    /// gate applied. Each supplied field is overwritten and logged — logging
    /// is on supply, not on difference — and the update instant is stamped.
    #[verifier::rlimit(100)]
    #[verifier::spinoff_prover]
    pub fn update_report(
        &mut self,
        report_id: u64,
        updater: Identity,
        authenticated: bool,
        title: Option<String>,
        description: Option<String>,
        location: Option<String>,
        category: Option<String>,
        amount_needed: Option<u64>,
        image_urls: Option<Vec<String>>,
        reason: String,
        now: u64,
    ) -> (r: Result<bool, RegistryError>)
        requires
            old(self).wf(),
        ensures
            final(self).wf(),
            !authenticated ==> r == Err::<bool, RegistryError>(
                RegistryError::AuthenticationFailure,
            ) && final(self)@ == old(self)@,
            authenticated && !(1 <= report_id && report_id <= old(self)@.reports.len()) ==> r
                == Ok::<bool, RegistryError>(false) && final(self)@ == old(self)@,
            authenticated && 1 <= report_id && report_id <= old(self)@.reports.len()
                && !may_update(old(self)@, report_id, updater) ==> r == Err::<bool, RegistryError>(
                RegistryError::AuthorizationFailure,
            ) && final(self)@ == old(self)@,
            authenticated && 1 <= report_id && report_id <= old(self)@.reports.len()
                && may_update(old(self)@, report_id, updater) ==> {
                &&& r == Ok::<bool, RegistryError>(true)
                &&& final(self)@.initialized == old(self)@.initialized
                &&& final(self)@.admins == old(self)@.admins
                &&& final(self)@.reports == old(self)@.reports.update(
                    report_id - 1,
                    applied_update(
                        old(self)@.reports[report_id - 1],
                        title.deep_view(),
                        description.deep_view(),
                        location.deep_view(),
                        category.deep_view(),
                        amount_needed,
                        image_urls.deep_view(),
                        now,
                    ),
                )
                &&& final(self)@.logs == old(self)@.logs.update(
                    report_id - 1,
                    old(self)@.logs[report_id - 1] + update_entries(
                        old(self)@.reports[report_id - 1],
                        report_id,
                        updater,
                        title.deep_view(),
                        description.deep_view(),
                        location.deep_view(),
                        category.deep_view(),
                        amount_needed,
                        image_urls.deep_view(),
                        reason@,
                        now,
                    ),
                )
            },
    {
        if !authenticated {
            return Err(RegistryError::AuthenticationFailure);
        }
        if !(report_id >= 1 && report_id <= self.reports.len() as u64) {
            return Ok(false);
        }
        let idx: usize = (report_id - 1) as usize;
        let is_creator = self.reports[idx].creator == updater;
        let is_admin = self.is_admin(updater);
        if !is_creator && !is_admin {
            return Err(RegistryError::AuthorizationFailure);
        }
        self.apply_report_update(
            report_id,
            updater,
            title,
            description,
            location,
            category,
            amount_needed,
            image_urls,
            reason,
            now,
        );
        Ok(true)
    }

    /// The authorized path of `update_report`: overwrites each supplied
    /// field, appends the matching audit entries, stamps the update instant.
    #[verifier::rlimit(100)]
    #[verifier::spinoff_prover]
    fn apply_report_update(
        &mut self,
        report_id: u64,
        updater: Identity,
        title: Option<String>,
        description: Option<String>,
        location: Option<String>,
        category: Option<String>,
        amount_needed: Option<u64>,
        image_urls: Option<Vec<String>>,
        reason: String,
        now: u64,
    )
        requires
            old(self).wf(),
            1 <= report_id && report_id <= old(self)@.reports.len(),
            old(self)@.logs.len() == old(self)@.reports.len(),
        ensures
            final(self)@.initialized == old(self)@.initialized,
            final(self)@.admins == old(self)@.admins,
            final(self)@.reports == old(self)@.reports.update(
                report_id - 1,
                applied_update(
                    old(self)@.reports[report_id - 1],
                    title.deep_view(),
                    description.deep_view(),
                    location.deep_view(),
                    category.deep_view(),
                    amount_needed,
                    image_urls.deep_view(),
                    now,
                ),
            ),
            final(self)@.logs == old(self)@.logs.update(
                report_id - 1,
                old(self)@.logs[report_id - 1] + update_entries(
                    old(self)@.reports[report_id - 1],
                    report_id,
                    updater,
                    title.deep_view(),
                    description.deep_view(),
                    location.deep_view(),
                    category.deep_view(),
                    amount_needed,
                    image_urls.deep_view(),
                    reason@,
                    now,
                ),
            ),
    {
        let n: usize = self.reports.len();
        proof {
            assert(self@.reports.len() == n);
        }
        let idx: usize = (report_id - 1) as usize;
        let ghost old_rep: ReportView = self@.reports[report_id - 1];
        let ghost base: Seq<ChangeLogView> = self@.logs[report_id - 1];
        let ghost t_v: Option<Seq<char>> = title.deep_view();
        let ghost d_v: Option<Seq<char>> = description.deep_view();
        let ghost l_v: Option<Seq<char>> = location.deep_view();
        let ghost c_v: Option<Seq<char>> = category.deep_view();
        let ghost u_v: Option<Seq<Seq<char>>> = image_urls.deep_view();
        let mut rep = self.reports.remove(idx);
        let ghost gutted: Seq<ReportView> = self@.reports;
        proof {
            assert(gutted =~= old(self)@.reports.remove(report_id - 1));
        }
        let mut new_entries: Vec<ChangeLog> = Vec::new();
        if let Some(new_title) = title {
            new_entries.push(
                ChangeLog {
                    report_id,
                    changed_by: updater,
                    field_changed: "title".to_owned(),
                    old_value: rep.title.clone(),
                    new_value: new_title.clone(),
                    timestamp: now,
                    reason: reason.clone(),
                },
            );
            rep.title = new_title;
        }
        proof {
            assert(new_entries.deep_view() =~= title_entries(
                old_rep,
                report_id,
                updater,
                t_v,
                reason@,
                now,
            ));
        }
        let ghost done_t: Seq<ChangeLogView> = new_entries.deep_view();
        if let Some(new_description) = description {
            new_entries.push(
                ChangeLog {
                    report_id,
                    changed_by: updater,
                    field_changed: "description".to_owned(),
                    old_value: "[description_updated]".to_owned(),
                    new_value: "[new_description]".to_owned(),
                    timestamp: now,
                    reason: reason.clone(),
                },
            );
            rep.description = new_description;
        }
        proof {
            assert(new_entries.deep_view() =~= done_t + description_entries(
                report_id,
                updater,
                d_v,
                reason@,
                now,
            ));
        }
        let ghost done_d: Seq<ChangeLogView> = new_entries.deep_view();
        if let Some(new_location) = location {
            new_entries.push(
                ChangeLog {
                    report_id,
                    changed_by: updater,
                    field_changed: "location".to_owned(),
                    old_value: rep.location.clone(),
                    new_value: new_location.clone(),
                    timestamp: now,
                    reason: reason.clone(),
                },
            );
            rep.location = new_location;
        }
        proof {
            assert(new_entries.deep_view() =~= done_d + location_entries(
                old_rep,
                report_id,
                updater,
                l_v,
                reason@,
                now,
            ));
        }
        let ghost done_l: Seq<ChangeLogView> = new_entries.deep_view();
        if let Some(new_category) = category {
            new_entries.push(
                ChangeLog {
                    report_id,
                    changed_by: updater,
                    field_changed: "category".to_owned(),
                    old_value: rep.category.clone(),
                    new_value: new_category.clone(),
                    timestamp: now,
                    reason: reason.clone(),
                },
            );
            rep.category = new_category;
        }
        proof {
            assert(new_entries.deep_view() =~= done_l + category_entries(
                old_rep,
                report_id,
                updater,
                c_v,
                reason@,
                now,
            ));
        }
        let ghost done_c: Seq<ChangeLogView> = new_entries.deep_view();
        if let Some(new_amount) = amount_needed {
            new_entries.push(
                ChangeLog {
                    report_id,
                    changed_by: updater,
                    field_changed: "amount_needed".to_owned(),
                    old_value: "amount_updated".to_owned(),
                    new_value: "new_amount".to_owned(),
                    timestamp: now,
                    reason: reason.clone(),
                },
            );
            rep.amount_needed = new_amount;
        }
        proof {
            assert(new_entries.deep_view() =~= done_c + amount_needed_entries(
                report_id,
                updater,
                amount_needed,
                reason@,
                now,
            ));
        }
        let ghost done_a: Seq<ChangeLogView> = new_entries.deep_view();
        if let Some(new_images) = image_urls {
            new_entries.push(
                ChangeLog {
                    report_id,
                    changed_by: updater,
                    field_changed: "images".to_owned(),
                    old_value: "[images_updated]".to_owned(),
                    new_value: "[new_images]".to_owned(),
                    timestamp: now,
                    reason: reason.clone(),
                },
            );
            rep.image_urls = new_images;
        }
        proof {
            assert(new_entries.deep_view() =~= done_a + image_entries(
                report_id,
                updater,
                u_v,
                reason@,
                now,
            ));
            assert(new_entries.deep_view() =~= update_entries(
                old_rep,
                report_id,
                updater,
                t_v,
                d_v,
                l_v,
                c_v,
                amount_needed,
                u_v,
                reason@,
                now,
            ));
        }
        rep.updated_at = now;
        proof {
            assert(rep@ =~~= applied_update(old_rep, t_v, d_v, l_v, c_v, amount_needed, u_v, now));
        }
        self.reports.insert(idx, rep);
        proof {
            assert(self@.reports =~= gutted.insert(report_id - 1, rep@));
            assert(self@.reports =~= old(self)@.reports.update(
                report_id - 1,
                applied_update(old_rep, t_v, d_v, l_v, c_v, amount_needed, u_v, now),
            ));
        }
        self.append_entries(report_id, new_entries);
    }

    /// Writes a new status and fresh verification notes onto a report.
    /// Admin-only: the identity proof and the admin check both come before
    /// the lookup, so even a missing report aborts for a non-admin. Any
    /// status string the admin supplies is stored as given; no transition
    /// graph is enforced. A missing report under an admin caller reports
    /// `false` without aborting.
    pub fn update_status(
        &mut self,
        report_id: u64,
        admin: Identity,
        authenticated: bool,
        new_status: String,
        verification_notes: String,
        now: u64,
    ) -> (r: Result<bool, RegistryError>)
        requires
            old(self).wf(),
        ensures
            final(self).wf(),
            !authenticated ==> r == Err::<bool, RegistryError>(
                RegistryError::AuthenticationFailure,
            ) && final(self)@ == old(self)@,
            authenticated && !old(self)@.admins.contains(admin) ==> r == Err::<
                bool,
                RegistryError,
            >(RegistryError::AuthorizationFailure) && final(self)@ == old(self)@,
            authenticated && old(self)@.admins.contains(admin) && !(1 <= report_id && report_id
                <= old(self)@.reports.len()) ==> r == Ok::<bool, RegistryError>(false)
                && final(self)@ == old(self)@,
            authenticated && old(self)@.admins.contains(admin) && 1 <= report_id && report_id
                <= old(self)@.reports.len() ==> {
                &&& r == Ok::<bool, RegistryError>(true)
                &&& final(self)@.initialized == old(self)@.initialized
                &&& final(self)@.admins == old(self)@.admins
                &&& final(self)@.reports == old(self)@.reports.update(
                    report_id - 1,
                    status_updated(
                        old(self)@.reports[report_id - 1],
                        new_status@,
                        verification_notes@,
                        now,
                    ),
                )
                &&& final(self)@.logs == old(self)@.logs.update(
                    report_id - 1,
                    old(self)@.logs[report_id - 1].push(
                        field_entry(
                            report_id,
                            admin,
                            "status"@,
                            old(self)@.reports[report_id - 1].status,
                            new_status@,
                            verification_notes@,
                            now,
                        ),
                    ),
                )
            },
    {
        if !authenticated {
            return Err(RegistryError::AuthenticationFailure);
        }
        if !self.is_admin(admin) {
            return Err(RegistryError::AuthorizationFailure);
        }
        if !(report_id >= 1 && report_id <= self.reports.len() as u64) {
            return Ok(false);
        }
        let idx: usize = (report_id - 1) as usize;
        let ghost old_rep: ReportView = self@.reports[report_id - 1];
        let ghost base: Seq<ChangeLogView> = self@.logs[report_id - 1];
        let mut rep = self.reports.remove(idx);
        let ghost gutted: Seq<ReportView> = self@.reports;
        proof {
            assert(gutted =~= old(self)@.reports.remove(report_id - 1));
        }
        self.log_change(
            report_id,
            admin,
            "status".to_owned(),
            rep.status.clone(),
            new_status.clone(),
            verification_notes.clone(),
            now,
        );
        rep.status = new_status;
        rep.verification_notes = verification_notes;
        rep.updated_at = now;
        proof {
            assert(rep@ =~~= status_updated(old_rep, new_status@, verification_notes@, now));
            assert(self@.logs =~= old(self)@.logs.update(
                report_id - 1,
                base.push(
                    field_entry(
                        report_id,
                        admin,
                        "status"@,
                        old_rep.status,
                        new_status@,
                        verification_notes@,
                        now,
                    ),
                ),
            ));
        }
        self.reports.insert(idx, rep);
        proof {
            assert(self@.reports =~= gutted.insert(report_id - 1, rep@));
            assert(self@.reports =~= old(self)@.reports.update(
                report_id - 1,
                status_updated(old_rep, new_status@, verification_notes@, now),
            ));
        }
        Ok(true)
    }

    /// Records a received donation. Admin-only, with the same gate order as
    /// `update_status`. Overwrites the raised amount, logs the change under
    /// the fixed reason "Donation received", and applies the one automatic
    /// transition in the system: a report standing exactly at "verified"
    /// whose new amount reaches its goal becomes "funded".
    pub fn update_amount_raised(
        &mut self,
        report_id: u64,
        new_amount_raised: u64,
        updater: Identity,
        authenticated: bool,
        now: u64,
    ) -> (r: Result<bool, RegistryError>)
        requires
            old(self).wf(),
        ensures
            final(self).wf(),
            !authenticated ==> r == Err::<bool, RegistryError>(
                RegistryError::AuthenticationFailure,
            ) && final(self)@ == old(self)@,
            authenticated && !old(self)@.admins.contains(updater) ==> r == Err::<
                bool,
                RegistryError,
            >(RegistryError::AuthorizationFailure) && final(self)@ == old(self)@,
            authenticated && old(self)@.admins.contains(updater) && !(1 <= report_id && report_id
                <= old(self)@.reports.len()) ==> r == Ok::<bool, RegistryError>(false)
                && final(self)@ == old(self)@,
            authenticated && old(self)@.admins.contains(updater) && 1 <= report_id && report_id
                <= old(self)@.reports.len() ==> {
                &&& r == Ok::<bool, RegistryError>(true)
                &&& final(self)@.initialized == old(self)@.initialized
                &&& final(self)@.admins == old(self)@.admins
                &&& final(self)@.reports == old(self)@.reports.update(
                    report_id - 1,
                    donation_applied(old(self)@.reports[report_id - 1], new_amount_raised, now),
                )
                &&& final(self)@.logs == old(self)@.logs.update(
                    report_id - 1,
                    old(self)@.logs[report_id - 1].push(
                        field_entry(
                            report_id,
                            updater,
                            "amount_raised"@,
                            "amount_updated"@,
                            "new_amount_raised"@,
                            "Donation received"@,
                            now,
                        ),
                    ),
                )
            },
    {
        if !authenticated {
            return Err(RegistryError::AuthenticationFailure);
        }
        if !self.is_admin(updater) {
            return Err(RegistryError::AuthorizationFailure);
        }
        if !(report_id >= 1 && report_id <= self.reports.len() as u64) {
            return Ok(false);
        }
        let idx: usize = (report_id - 1) as usize;
        let ghost old_rep: ReportView = self@.reports[report_id - 1];
        let ghost base: Seq<ChangeLogView> = self@.logs[report_id - 1];
        let mut rep = self.reports.remove(idx);
        let ghost gutted: Seq<ReportView> = self@.reports;
        proof {
            assert(gutted =~= old(self)@.reports.remove(report_id - 1));
        }
        self.log_change(
            report_id,
            updater,
            "amount_raised".to_owned(),
            "amount_updated".to_owned(),
            "new_amount_raised".to_owned(),
            "Donation received".to_owned(),
            now,
        );
        rep.amount_raised = new_amount_raised;
        let verified_status = "verified".to_owned();
        if new_amount_raised >= rep.amount_needed && rep.status == verified_status {
            rep.status = "funded".to_owned();
        }
        rep.updated_at = now;
        proof {
            assert(rep@ =~~= donation_applied(old_rep, new_amount_raised, now));
            assert(self@.logs =~= old(self)@.logs.update(
                report_id - 1,
                base.push(
                    field_entry(
                        report_id,
                        updater,
                        "amount_raised"@,
                        "amount_updated"@,
                        "new_amount_raised"@,
                        "Donation received"@,
                        now,
                    ),
                ),
            ));
        }
        self.reports.insert(idx, rep);
        proof {
            assert(self@.reports =~= gutted.insert(report_id - 1, rep@));
            assert(self@.reports =~= old(self)@.reports.update(
                report_id - 1,
                donation_applied(old_rep, new_amount_raised, now),
            ));
        }
        Ok(true)
    }
}

} // verus!
