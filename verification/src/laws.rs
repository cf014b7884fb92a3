//! The registry's general laws, each stated over the same spec functions the
//! operation contracts use and proved once for all inputs.

use vstd::prelude::*;

use crate::queries::page_slice;
use crate::registry::admins_after_add;
use crate::registry::NeedReportsContract;
use crate::reports::fresh_report;
use crate::reports::status_after_donation;
use crate::reports::supplied_field_count;
use crate::reports::update_entries;
use crate::types::Identity;
use crate::types::ReportView;

verus! {

/// Identifiers are dense and strictly increasing: in a well-formed registry
/// the report at position `i` carries identifier `i + 1`, so the allocator
/// hands out 1, 2, 3, … with no gap and no reuse, and a scan in storage
/// order is a scan in ascending identifier order.
pub proof fn lemma_identifiers_dense(reg: NeedReportsContract)
    requires
        reg.wf(),
    ensures
        forall|i: int| 0 <= i < reg@.reports.len() ==> (#[trigger] reg@.reports[i]).id == i + 1,
        forall|i: int, j: int|
            0 <= i < j < reg@.reports.len() ==> reg@.reports[i].id < reg@.reports[j].id,
{
}

/// A freshly created report starts in a fixed state: status "pending",
/// nothing raised, and its creation and update instants equal — which is
/// what a lookup immediately after creation returns.
pub proof fn lemma_fresh_report_initial_state(
    id: u64,
    creator: Identity,
    title: Seq<char>,
    description: Seq<char>,
    location: Seq<char>,
    category: Seq<char>,
    amount_needed: u64,
    image_urls: Seq<Seq<char>>,
    now: u64,
)
    ensures
        fresh_report(
            id,
            creator,
            title,
            description,
            location,
            category,
            amount_needed,
            image_urls,
            now,
        ).status == "pending"@,
        fresh_report(
            id,
            creator,
            title,
            description,
            location,
            category,
            amount_needed,
            image_urls,
            now,
        ).amount_raised == 0,
        fresh_report(
            id,
            creator,
            title,
            description,
            location,
            category,
            amount_needed,
            image_urls,
            now,
        ).created_at == fresh_report(
            id,
            creator,
            title,
            description,
            location,
            category,
            amount_needed,
            image_urls,
            now,
        ).updated_at,
{
}

/// A partial update appends exactly one audit entry per supplied field —
/// whether or not the supplied value differs from the stored one — and every
/// appended entry carries the supplied reason, the update instant, the
/// report's identifier and the updater's identity.
pub proof fn lemma_update_appends_supplied_fields(
    rep: ReportView,
    report_id: u64,
    updater: Identity,
    title: Option<Seq<char>>,
    description: Option<Seq<char>>,
    location: Option<Seq<char>>,
    category: Option<Seq<char>>,
    amount_needed: Option<u64>,
    image_urls: Option<Seq<Seq<char>>>,
    reason: Seq<char>,
    now: u64,
)
    ensures
        update_entries(
            rep,
            report_id,
            updater,
            title,
            description,
            location,
            category,
            amount_needed,
            image_urls,
            reason,
            now,
        ).len() == supplied_field_count(
            title,
            description,
            location,
            category,
            amount_needed,
            image_urls,
        ),
        forall|k: int|
            #![trigger update_entries(rep, report_id, updater, title, description, location, category, amount_needed, image_urls, reason, now)[k]]
            0 <= k < update_entries(
                rep,
                report_id,
                updater,
                title,
                description,
                location,
                category,
                amount_needed,
                image_urls,
                reason,
                now,
            ).len() ==> {
                let e = update_entries(
                    rep,
                    report_id,
                    updater,
                    title,
                    description,
                    location,
                    category,
                    amount_needed,
                    image_urls,
                    reason,
                    now,
                )[k];
                e.reason == reason && e.timestamp == now && e.report_id == report_id
                    && e.changed_by == updater
            },
{
}

/// The one automatic lifecycle transition: recording a donation moves a
/// report to "funded" exactly when the new amount reaches the goal and the
/// report stood at "verified"; every other report — a "pending" one in
/// particular, however much was raised — keeps its status.
pub proof fn lemma_funding_transition(rep: ReportView, new_amount: u64)
    ensures
        (new_amount >= rep.amount_needed && rep.status == "verified"@) ==> status_after_donation(
            rep,
            new_amount,
        ) == "funded"@,
        !(new_amount >= rep.amount_needed && rep.status == "verified"@) ==> status_after_donation(
            rep,
            new_amount,
        ) == rep.status,
        rep.status == "pending"@ ==> status_after_donation(rep, new_amount) == "pending"@,
{
    reveal_strlit("pending");
    reveal_strlit("verified");
    assert("pending"@.len() == 7);
    assert("verified"@.len() == 8);
}

/// Pagination clamps exactly: an offset beyond the stored range yields the
/// empty page, and the page at offset 1 with the total count as limit is the
/// whole listing in ascending identifier order.
pub proof fn lemma_pagination(rs: Seq<ReportView>, offset: u64, limit: u64)
    ensures
        offset > rs.len() ==> page_slice(rs, offset, limit) == Seq::<ReportView>::empty(),
        offset == 1 && limit == rs.len() ==> page_slice(rs, offset, limit) == rs,
{
    if offset == 1 && limit == rs.len() {
        assert(page_slice(rs, offset, limit) =~= rs);
    }
}

/// How often one identity occurs in a sequence of identities.
pub open spec fn occurrence_count(s: Seq<Identity>, a: Identity) -> int
    decreases s.len(),
{
    if s.len() == 0 {
        0int
    } else {
        occurrence_count(s.drop_last(), a) + if s.last() == a {
            1int
        } else {
            0int
        }
    }
}

/// An identity occurs a positive number of times exactly when the sequence
/// contains it.
pub proof fn lemma_occurrence_positive_iff_contains(s: Seq<Identity>, a: Identity)
    ensures
        s.contains(a) <==> occurrence_count(s, a) > 0,
        occurrence_count(s, a) >= 0,
    decreases s.len(),
{
    if s.len() > 0 {
        lemma_occurrence_positive_iff_contains(s.drop_last(), a);
        if s.contains(a) {
            let i = choose|i: int| 0 <= i < s.len() && s[i] == a;
            if i < s.len() - 1 {
                assert(s.drop_last()[i] == a);
                assert(s.drop_last().contains(a));
            }
        }
        if s.drop_last().contains(a) {
            let i = choose|i: int| 0 <= i < s.drop_last().len() && s.drop_last()[i] == a;
            assert(s[i] == a);
        }
    }
}

/// Growing the admin set is idempotent: the first addition of a fresh admin
/// is accepted and makes the identity a member with exactly one occurrence;
/// attempting the same addition again is refused and changes nothing, so the
/// set never acquires a duplicate this way.
pub proof fn lemma_add_admin_idempotent(admins: Seq<Identity>, a: Identity)
    ensures
        admins_after_add(admins, a).contains(a),
        admins_after_add(admins_after_add(admins, a), a) == admins_after_add(admins, a),
        !admins.contains(a) ==> occurrence_count(admins_after_add(admins, a), a)
            == 1,
{
    if !admins.contains(a) {
        let grown = admins.push(a);
        assert(grown[admins.len() as int] == a);
        assert(grown.contains(a));
        lemma_occurrence_positive_iff_contains(admins, a);
        assert(grown.drop_last() =~= admins);
    }
}

} // verus!
