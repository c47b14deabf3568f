//! The count of button presses.
use vstd::prelude::*;

verus! {

/// The count after `k` presses, starting from `start`.
pub open spec fn count_after(start: int, k: nat) -> int
    decreases k,
{
    if k == 0 {
        start
    } else {
        count_after(start, (k - 1) as nat) + 1
    }
}

/// The counts that `k` successive presses return, starting from `start`, in order.
pub open spec fn press_returns(start: int, k: nat) -> Seq<int>
    decreases k,
{
    if k == 0 {
        Seq::empty()
    } else {
        press_returns(start, (k - 1) as nat).push(count_after(start, (k - 1) as nat) + 1)
    }
}

/// From a new counter, `k` presses (as many as fit in the count) are each admissible,
/// return 1, 2, ..., k in this order, and leave the count at `k`.
pub proof fn lemma_presses_from_zero(k: nat)
    requires
        k <= u32::MAX,
    ensures
        count_after(0, k) == k,
        forall|i: nat| i < k ==> #[trigger] count_after(0, i) < u32::MAX,
        press_returns(0, k) == Seq::new(k, |i: int| i + 1),
    decreases k,
{
    if k > 0 {
        lemma_presses_from_zero((k - 1) as nat);
        assert forall|i: nat| i < k implies #[trigger] count_after(0, i) < u32::MAX by {
            lemma_count_after_from_zero(i);
        }
        assert(press_returns(0, k) =~= Seq::new(k, |i: int| i + 1));
    }
}

/// From a new counter the count after `k` presses is `k`.
proof fn lemma_count_after_from_zero(k: nat)
    ensures
        count_after(0, k) == k,
    decreases k,
{
    if k > 0 {
        lemma_count_after_from_zero((k - 1) as nat);
    }
}

/// From any start, `k` presses add `k` to the count and return the counts in between.
pub proof fn lemma_presses_from(start: int, k: nat)
    ensures
        count_after(start, k) == start + k,
        press_returns(start, k) == Seq::new(k, |i: int| start + i + 1),
    decreases k,
{
    if k > 0 {
        lemma_presses_from(start, (k - 1) as nat);
        assert(press_returns(start, k) =~= Seq::new(k, |i: int| start + i + 1));
    } else {
        assert(press_returns(start, 0) =~= Seq::new(0, |i: int| start + i + 1));
    }
}

/// How many times the button has been pressed.
pub struct PressCounter {
    count: u32,
}

impl View for PressCounter {
    type V = u32;

    closed spec fn view(&self) -> u32 {
        self.count
    }
}

impl PressCounter {
    /// No press yet.
    pub fn new() -> (c: PressCounter)
        ensures
            c@ == 0,
    {
        PressCounter { count: 0 }
    }

    /// Counts one more press and returns the new count; a count that would overflow is
    /// left out.
    pub fn press(&mut self) -> (count: u32)
        requires
            old(self)@ < u32::MAX,
        ensures
            count == count_after(old(self)@ as int, 1),
            count == old(self)@ + 1,
            final(self)@ == count,
    {
        proof {
            assert(count_after(self.count as int, 0) == self.count);
        }
        self.count = self.count + 1;
        self.count
    }

    /// Counts `k` presses one after another, returning what each press returned, in
    /// order; counts that would overflow are left out.
    pub fn press_n(&mut self, k: u32) -> (counts: Vec<u32>)
        requires
            old(self)@ + k <= u32::MAX,
        ensures
            counts@.map_values(|c: u32| c as int) == press_returns(old(self)@ as int, k as nat),
            final(self)@ == count_after(old(self)@ as int, k as nat),
            final(self)@ == old(self)@ + k,
    {
        let ghost start: int = self.count as int;
        let mut counts: Vec<u32> = Vec::new();
        let mut i: u32 = 0;
        proof {
            assert(counts@.map_values(|c: u32| c as int) =~= press_returns(start, 0));
        }
        while i < k
            invariant
                i <= k,
                start + k <= u32::MAX,
                self@ == count_after(start, i as nat),
                self@ == start + i,
                counts@.map_values(|c: u32| c as int) == press_returns(start, i as nat),
            decreases k - i,
        {
            let c = self.press();
            proof {
                assert(count_after(start, (i + 1) as nat) == count_after(start, i as nat) + 1);
            }
            counts.push(c);
            proof {
                assert(counts@.map_values(|c: u32| c as int) =~= press_returns(start, i as nat).push(
                    count_after(start, i as nat) + 1,
                ));
            }
            i = i + 1;
        }
        counts
    }

    /// The presses counted so far.
    pub fn count(&self) -> (c: u32)
        ensures
            c == self@,
    {
        self.count
    }
}

} // verus!
