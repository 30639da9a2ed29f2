//! Loan analytics: running totals of loans granted and defaults recorded.
use vstd::prelude::*;

verus! {

/// Aggregate loan statistics.
#[derive(Clone, Copy, Debug, PartialEq, Eq, Structural)]
pub struct LoanStats {
    pub total_loaned: i128,
    pub active_loans: u32,
    pub defaults: u32,
}

impl LoanStats {
    /// All counters at zero.
    pub fn default() -> (r: LoanStats)
        ensures
            r == (LoanStats { total_loaned: 0, active_loans: 0, defaults: 0 }),
    {
        LoanStats { total_loaned: 0, active_loans: 0, defaults: 0 }
    }
}

/// The statistics after a loan of `amount` is recorded.
pub open spec fn after_loan(s: LoanStats, amount: i128) -> LoanStats {
    LoanStats {
        total_loaned: (s.total_loaned + amount) as i128,
        active_loans: (s.active_loans + 1) as u32,
        defaults: s.defaults,
    }
}

/// The statistics after a default is recorded.
pub open spec fn after_default(s: LoanStats) -> LoanStats {
    LoanStats {
        total_loaned: s.total_loaned,
        active_loans: if s.active_loans > 0 {
            (s.active_loans - 1) as u32
        } else {
            0
        },
        defaults: (s.defaults + 1) as u32,
    }
}

/// The loan analytics contract; it starts with all counters at zero.
pub struct LoanAnalyticsContract {
    pub stats: LoanStats,
}

impl LoanAnalyticsContract {
    /// A contract whose statistics are all zero.
    pub fn new() -> (c: LoanAnalyticsContract)
        ensures
            c.stats == (LoanStats { total_loaned: 0, active_loans: 0, defaults: 0 }),
    {
        LoanAnalyticsContract { stats: LoanStats::default() }
    }

    /// Records a new loan of `amount`: adds it to the total and counts one more active loan.
    pub fn record_loan(&mut self, amount: i128)
        requires
            i128::MIN <= old(self).stats.total_loaned + amount <= i128::MAX,
            old(self).stats.active_loans < u32::MAX,
        ensures
            final(self).stats == after_loan(old(self).stats, amount),
    {
        self.stats.total_loaned = self.stats.total_loaned + amount;
        self.stats.active_loans = self.stats.active_loans + 1;
    }

    /// Records a default: one fewer active loan (if any) and one more default.
    pub fn record_default(&mut self)
        requires
            old(self).stats.defaults < u32::MAX,
        ensures
            final(self).stats == after_default(old(self).stats),
    {
        if self.stats.active_loans > 0 {
            self.stats.active_loans = self.stats.active_loans - 1;
        }
        self.stats.defaults = self.stats.defaults + 1;
    }

    /// The current statistics.
    pub fn get_stats(&self) -> (r: LoanStats)
        ensures
            r == self.stats,
    {
        self.stats
    }
}

/// A default never changes the total loaned; recording a loan and then a
/// default leaves the active count where it was and adds one default.
pub proof fn lemma_loan_then_default(s: LoanStats, amount: i128)
    requires
        i128::MIN <= s.total_loaned + amount <= i128::MAX,
        s.active_loans < u32::MAX,
        s.defaults < u32::MAX,
    ensures
        after_default(after_loan(s, amount)).active_loans == s.active_loans,
        after_default(after_loan(s, amount)).defaults == s.defaults + 1,
        after_default(after_loan(s, amount)).total_loaned == s.total_loaned + amount,
{
}

} // verus!
