//! Read-only full-scan queries: per-creator listing, paginated listing,
//! status filtering, audit-trail retrieval and platform-wide statistics.

use vstd::prelude::*;

use crate::registry::NeedReportsContract;
use crate::types::ChangeLog;
use crate::types::ChangeLogView;
use crate::types::Identity;
use crate::types::NeedReport;
use crate::types::ReportStats;
use crate::types::ReportView;

verus! {

/// The reports of one creator, in ascending identifier order.
pub open spec fn reports_by_creator(rs: Seq<ReportView>, user: Identity) -> Seq<ReportView> {
    rs.filter(|rep: ReportView| rep.creator == user)
}

/// The reports whose status equals `status` exactly, in ascending
/// identifier order. Case-sensitive, no normalization.
pub open spec fn reports_with_status(rs: Seq<ReportView>, status: Seq<char>) -> Seq<ReportView> {
    rs.filter(|rep: ReportView| rep.status == status)
}

/// The first identifier of a page: the offset, clamped up to 1.
pub open spec fn page_start(offset: u64) -> int {
    if offset >= 1 {
        offset as int
    } else {
        1
    }
}

/// The last identifier of a page: the start plus the limit, clamped down to
/// the total count.
pub open spec fn page_end(offset: u64, limit: u64, total: int) -> int {
    let e = page_start(offset) + limit - 1;
    if e <= total {
        e
    } else {
        total
    }
}

/// The page of reports selected by `offset` and `limit`: the contiguous
/// identifier range from the clamped start to the clamped end, empty when
/// the range is.
pub open spec fn page_slice(rs: Seq<ReportView>, offset: u64, limit: u64) -> Seq<ReportView> {
    let s = page_start(offset);
    let e = page_end(offset, limit, rs.len() as int);
    if s > e {
        Seq::<ReportView>::empty()
    } else {
        rs.subrange(s - 1, e)
    }
}

/// The summed funding goals of a report sequence.
pub open spec fn sum_needed(rs: Seq<ReportView>) -> int
    decreases rs.len(),
{
    if rs.len() == 0 {
        0
    } else {
        sum_needed(rs.drop_last()) + rs.last().amount_needed
    }
}

/// The summed raised amounts of a report sequence.
pub open spec fn sum_raised(rs: Seq<ReportView>) -> int
    decreases rs.len(),
{
    if rs.len() == 0 {
        0
    } else {
        sum_raised(rs.drop_last()) + rs.last().amount_raised
    }
}

/// How many reports of the sequence carry exactly the given status.
pub open spec fn count_with_status(rs: Seq<ReportView>, status: Seq<char>) -> int
    decreases rs.len(),
{
    if rs.len() == 0 {
        0int
    } else {
        count_with_status(rs.drop_last(), status) + if rs.last().status == status {
            1int
        } else {
            0int
        }
    }
}

/// A prefix never sums to more than the whole: funding goals.
proof fn lemma_sum_needed_prefix(rs: Seq<ReportView>, i: int)
    requires
        0 <= i <= rs.len(),
    ensures
        sum_needed(rs.subrange(0, i)) <= sum_needed(rs),
    decreases rs.len(),
{
    if i == rs.len() {
        assert(rs.subrange(0, i) =~= rs);
    } else {
        assert(rs.drop_last().subrange(0, i) =~= rs.subrange(0, i));
        lemma_sum_needed_prefix(rs.drop_last(), i);
    }
}

/// A prefix never sums to more than the whole: raised amounts.
proof fn lemma_sum_raised_prefix(rs: Seq<ReportView>, i: int)
    requires
        0 <= i <= rs.len(),
    ensures
        sum_raised(rs.subrange(0, i)) <= sum_raised(rs),
    decreases rs.len(),
{
    if i == rs.len() {
        assert(rs.subrange(0, i) =~= rs);
    } else {
        assert(rs.drop_last().subrange(0, i) =~= rs.subrange(0, i));
        lemma_sum_raised_prefix(rs.drop_last(), i);
    }
}

impl NeedReportsContract {
    /// Every report created by `user`, in ascending identifier order: a full
    /// scan filtered by creator equality.
    pub fn get_user_reports(&self, user: Identity) -> (r: Vec<NeedReport>)
        requires
            self.wf(),
        ensures
            r.deep_view() == reports_by_creator(self@.reports, user),
    {
        let mut result: Vec<NeedReport> = Vec::new();
        let n: usize = self.reports.len();
        proof {
            assert(self@.reports.len() == n);
            reveal(Seq::filter);
            assert(result.deep_view() =~= reports_by_creator(
                self@.reports.subrange(0, 0),
                user,
            ));
        }
        let mut i: usize = 0;
        while i < n
            invariant
                n == self.reports.len(),
                n == self@.reports.len(),
                0 <= i <= n,
                result.deep_view() == reports_by_creator(self@.reports.subrange(0, i as int), user),
            decreases n - i,
        {
            proof {
                reveal(Seq::filter);
                assert(self@.reports.subrange(0, i + 1).drop_last() =~= self@.reports.subrange(
                    0,
                    i as int,
                ));
            }
            if self.reports[i].creator == user {
                result.push(self.reports[i].clone());
            }
            proof {
                assert(result.deep_view() =~= reports_by_creator(
                    self@.reports.subrange(0, i + 1),
                    user,
                ));
            }
            i = i + 1;
        }
        proof {
            assert(self@.reports.subrange(0, n as int) =~= self@.reports);
        }
        result
    }

    /// Every report whose status equals `status` exactly, in ascending
    /// identifier order: a full scan with case-sensitive string equality.
    pub fn get_reports_by_status(&self, status: String) -> (r: Vec<NeedReport>)
        requires
            self.wf(),
        ensures
            r.deep_view() == reports_with_status(self@.reports, status@),
    {
        let mut result: Vec<NeedReport> = Vec::new();
        let n: usize = self.reports.len();
        proof {
            assert(self@.reports.len() == n);
            reveal(Seq::filter);
            assert(result.deep_view() =~= reports_with_status(
                self@.reports.subrange(0, 0),
                status@,
            ));
        }
        let mut i: usize = 0;
        while i < n
            invariant
                n == self.reports.len(),
                n == self@.reports.len(),
                0 <= i <= n,
                result.deep_view() == reports_with_status(
                    self@.reports.subrange(0, i as int),
                    status@,
                ),
            decreases n - i,
        {
            proof {
                reveal(Seq::filter);
                assert(self@.reports.subrange(0, i + 1).drop_last() =~= self@.reports.subrange(
                    0,
                    i as int,
                ));
            }
            if self.reports[i].status == status {
                result.push(self.reports[i].clone());
            }
            proof {
                assert(result.deep_view() =~= reports_with_status(
                    self@.reports.subrange(0, i + 1),
                    status@,
                ));
            }
            i = i + 1;
        }
        proof {
            assert(self@.reports.subrange(0, n as int) =~= self@.reports);
        }
        result
    }

    /// A page of the full listing: identifiers from `max(offset, 1)` to
    /// `min(start + limit - 1, total)` inclusive, in ascending order, empty
    /// whenever that range is.
    pub fn get_all_reports(&self, offset: u64, limit: u64) -> (r: Vec<NeedReport>)
        requires
            self.wf(),
        ensures
            r.deep_view() == page_slice(self@.reports, offset, limit),
    {
        let n: usize = self.reports.len();
        proof {
            assert(self@.reports.len() == n);
        }
        let total: u64 = n as u64;
        let start: u64 = if offset >= 1 {
            offset
        } else {
            1
        };
        let mut result: Vec<NeedReport> = Vec::new();
        if start > total || limit == 0 {
            proof {
                assert(result.deep_view() =~= page_slice(self@.reports, offset, limit));
            }
            return result;
        }
        let remaining: u64 = total - start + 1;
        let take: u64 = if limit < remaining {
            limit
        } else {
            remaining
        };
        let first: usize = (start - 1) as usize;
        let count: usize = take as usize;
        let mut k: usize = 0;
        while k < count
            invariant
                n == self.reports.len(),
                n == self@.reports.len(),
                first + count <= n,
                0 <= k <= count,
                result.deep_view() == self@.reports.subrange(first as int, first + k),
            decreases count - k,
        {
            result.push(self.reports[first + k].clone());
            proof {
                assert(self@.reports.subrange(first as int, first + k + 1).drop_last()
                    =~= self@.reports.subrange(first as int, first + k));
                assert(result.deep_view() =~= self@.reports.subrange(first as int, first + k + 1));
            }
            k = k + 1;
        }
        proof {
            assert(result.deep_view() =~= page_slice(self@.reports, offset, limit));
        }
        result
    }

    /// The full audit trail of one report, in append (chronological) order;
    /// an empty sequence — never an error — for an identifier with no trail.
    pub fn get_change_log(&self, report_id: u64) -> (r: Vec<ChangeLog>)
        requires
            self.wf(),
        ensures
            r.deep_view() == if 1 <= report_id && report_id <= self@.logs.len() {
                self@.logs[report_id - 1]
            } else {
                Seq::<ChangeLogView>::empty()
            },
    {
        if report_id >= 1 && report_id <= self.logs.len() as u64 {
            let idx: usize = (report_id - 1) as usize;
            let r = self.logs[idx].clone();
            proof {
                assert(r.deep_view() =~= self@.logs[report_id - 1]);
            }
            r
        } else {
            let r: Vec<ChangeLog> = Vec::new();
            proof {
                assert(r.deep_view() =~= Seq::<ChangeLogView>::empty());
            }
            r
        }
    }

    /// Platform-wide statistics from one full scan: the total count, the
    /// count per lifecycle status, and the summed goals and raised amounts.
    /// A status outside the four counted ones contributes to the totals only.
    pub fn get_stats(&self) -> (r: ReportStats)
        requires
            self.wf(),
            sum_needed(self@.reports) <= u64::MAX,
            sum_raised(self@.reports) <= u64::MAX,
        ensures
            r == (ReportStats {
                total_reports: self@.reports.len() as u64,
                pending_reports: count_with_status(self@.reports, "pending"@) as u64,
                verified_reports: count_with_status(self@.reports, "verified"@) as u64,
                funded_reports: count_with_status(self@.reports, "funded"@) as u64,
                completed_reports: count_with_status(self@.reports, "completed"@) as u64,
                total_amount_needed: sum_needed(self@.reports) as u64,
                total_amount_raised: sum_raised(self@.reports) as u64,
            }),
    {
        let n: usize = self.reports.len();
        proof {
            assert(self@.reports.len() == n);
            reveal_strlit("pending");
            reveal_strlit("verified");
            reveal_strlit("funded");
            reveal_strlit("completed");
            assert("pending"@.len() == 7);
            assert("verified"@.len() == 8);
            assert("funded"@.len() == 6);
            assert("completed"@.len() == 9);
        }
        let pending_status = "pending".to_owned();
        let verified_status = "verified".to_owned();
        let funded_status = "funded".to_owned();
        let completed_status = "completed".to_owned();
        let mut pending: u64 = 0;
        let mut verified: u64 = 0;
        let mut funded: u64 = 0;
        let mut completed: u64 = 0;
        let mut needed: u64 = 0;
        let mut raised: u64 = 0;
        let mut i: usize = 0;
        while i < n
            invariant
                n == self.reports.len(),
                n == self@.reports.len(),
                0 <= i <= n,
                sum_needed(self@.reports) <= u64::MAX,
                sum_raised(self@.reports) <= u64::MAX,
                pending == count_with_status(self@.reports.subrange(0, i as int), "pending"@),
                verified == count_with_status(self@.reports.subrange(0, i as int), "verified"@),
                funded == count_with_status(self@.reports.subrange(0, i as int), "funded"@),
                completed == count_with_status(self@.reports.subrange(0, i as int), "completed"@),
                pending <= i && verified <= i && funded <= i && completed <= i,
                needed == sum_needed(self@.reports.subrange(0, i as int)),
                raised == sum_raised(self@.reports.subrange(0, i as int)),
                pending_status@ == "pending"@ && verified_status@ == "verified"@,
                funded_status@ == "funded"@ && completed_status@ == "completed"@,
                "pending"@.len() == 7 && "verified"@.len() == 8 && "funded"@.len() == 6
                    && "completed"@.len() == 9,
            decreases n - i,
        {
            proof {
                assert(self@.reports.subrange(0, i + 1).drop_last() =~= self@.reports.subrange(
                    0,
                    i as int,
                ));
                lemma_sum_needed_prefix(self@.reports, i + 1);
                lemma_sum_raised_prefix(self@.reports, i + 1);
            }
            let rep = &self.reports[i];
            needed = needed + rep.amount_needed;
            raised = raised + rep.amount_raised;
            if rep.status == pending_status {
                pending = pending + 1;
            } else if rep.status == verified_status {
                verified = verified + 1;
            } else if rep.status == funded_status {
                funded = funded + 1;
            } else if rep.status == completed_status {
                completed = completed + 1;
            }
            i = i + 1;
        }
        proof {
            assert(self@.reports.subrange(0, n as int) =~= self@.reports);
        }
        ReportStats {
            total_reports: n as u64,
            pending_reports: pending,
            verified_reports: verified,
            funded_reports: funded,
            completed_reports: completed,
            total_amount_needed: needed,
            total_amount_raised: raised,
        }
    }
}

} // verus!
