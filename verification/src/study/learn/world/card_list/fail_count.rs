//! Counting wrong answers.

use crate::output::{decimal, decimal_text};
use vstd::prelude::*;
use vstd::std_specs::ops::AddSpec;

verus! {

/// How often an item was answered wrongly in one mode; stops at 255.
#[derive(Debug, Clone, Copy, PartialEq, Eq, Structural, PartialOrd, Ord)]
pub struct FailCount(u8);

impl View for FailCount {
    type V = nat;

    closed spec fn view(&self) -> nat {
        self.0 as nat
    }
}

/// The sum of two counts, held at the largest count there is.
pub open spec fn capped_sum(a: nat, b: nat) -> nat {
    if a + b > u8::MAX {
        u8::MAX as nat
    } else {
        a + b
    }
}

/// How a count of `n` failures is shown: the numeral up to 100, `100+` above.
pub open spec fn shown_count(n: nat) -> Seq<char> {
    if n > 100 {
        "100+"@
    } else {
        decimal(n)
    }
}

impl FailCount {
    /// The count of no failure.
    pub fn zero() -> (count: FailCount)
        ensures
            count@ == 0,
    {
        FailCount(0)
    }

    /// Every count is at most 255.
    pub proof fn lemma_bounded(self)
        ensures
            self@ <= u8::MAX,
    {
    }

    /// The count after one more failure.
    pub closed spec fn incremented(self) -> FailCount {
        FailCount(
            if self.0 < u8::MAX {
                (self.0 + 1) as u8
            } else {
                u8::MAX
            },
        )
    }

    /// One more failure is one more in the count, up to 255.
    pub broadcast proof fn lemma_incremented(self)
        ensures
            #[trigger] self.incremented()@ == capped_sum(self@, 1),
    {
    }

    /// Counts one more failure.
    pub fn inc(&mut self)
        ensures
            *final(self) == old(self).incremented(),
            final(self)@ == capped_sum(old(self)@, 1),
    {
        self.0 = self.0.saturating_add(1);
    }

    /// Whether a failure was counted.
    pub fn has_failed(&self) -> (failed: bool)
        ensures
            failed == (self@ > 0),
    {
        self.0 > 0
    }

    /// The count.
    pub fn count(&self) -> (n: u8)
        ensures
            n == self@,
    {
        self.0
    }

    /// The count as the report shows it.
    pub fn to_text(&self) -> (text: String)
        ensures
            text@ == shown_count(self@),
    {
        if self.0 > 100 {
            String::from_str("100+")
        } else {
            decimal_text(self.0 as u64)
        }
    }
}

impl core::ops::Add<FailCount> for FailCount {
    type Output = FailCount;

    fn add(self, rhs: FailCount) -> (sum: FailCount) {
        FailCount(self.0.saturating_add(rhs.0))
    }
}

impl vstd::std_specs::ops::AddSpecImpl<FailCount> for FailCount {
    open spec fn obeys_add_spec() -> bool {
        true
    }

    open spec fn add_req(self, rhs: FailCount) -> bool {
        true
    }

    closed spec fn add_spec(self, rhs: FailCount) -> FailCount {
        FailCount(capped_sum(self@, rhs@) as u8)
    }
}

/// What `+` gives on two counts.
pub proof fn lemma_sum(a: FailCount, b: FailCount)
    ensures
        a.add_spec(b)@ == capped_sum(a@, b@),
{
}

} // verus!
