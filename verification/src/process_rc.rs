//! Process-aware reference counter.

use vstd::prelude::*;

verus! {

/// The id of the calling process (`nix::unistd::Pid::this`). Nothing is stated of it: it
/// depends on the process that makes the call.
#[verifier::external_body]
fn current_pid() -> (r: i32) {
    nix::unistd::Pid::this().as_raw()
}

/// What dropping one reference leads to.
#[derive(Debug, Clone, Copy, PartialEq, Eq, Structural)]
pub enum DecreaseResult {
    /// The reference was the last one of its process.
    YouAreTheLastOne,
    /// Other references remain.
    MoveAlong,
}

/// A reference counter that knows the process it counts in: a copy that reaches another
/// process (through `fork`) starts over there.
#[derive(Debug, Clone, Copy, PartialEq, Eq, Structural)]
pub struct PerProcessReferences {
    pub counter: usize,
    pub pid: i32,
}

/// The counter after a reference is taken in process `this_pid`: one more reference in the
/// same process, or a single one after a change of process.
pub open spec fn increased(s: PerProcessReferences, this_pid: i32) -> PerProcessReferences {
    if s.pid == this_pid {
        PerProcessReferences { counter: (if s.counter == usize::MAX { 0 } else { s.counter + 1 }) as usize, pid: this_pid }
    } else {
        PerProcessReferences { counter: 1, pid: this_pid }
    }
}

/// The counter, and the outcome, after a reference is dropped in process `current_pid`.
pub open spec fn decreased(s: PerProcessReferences, current_pid: i32) -> (PerProcessReferences, DecreaseResult) {
    if s.pid == current_pid {
        (
            PerProcessReferences { counter: (if s.counter == 0 { usize::MAX as int } else { s.counter - 1 }) as usize, pid: current_pid },
            if s.counter == 1 { DecreaseResult::YouAreTheLastOne } else { DecreaseResult::MoveAlong },
        )
    } else {
        (PerProcessReferences { counter: s.counter, pid: current_pid }, DecreaseResult::YouAreTheLastOne)
    }
}

impl PerProcessReferences {
    /// Initializes a counter with one reference in the calling process.
    pub fn new() -> (r: Self)
        ensures
            r.counter == 1,
    {
        Self::with_pid(current_pid())
    }

    /// Initializes a counter with one reference in process `pid`.
    pub fn with_pid(pid: i32) -> (r: Self)
        ensures
            r.counter == 1,
            r.pid == pid,
    {
        PerProcessReferences { counter: 1, pid }
    }

    /// Takes one more reference in the calling process, which becomes the counter's
    /// process, and returns `true`. A counter that holds no reference and reaches another
    /// process is in an unexpected state: it is left as it is and `false` is returned.
    pub fn increase(&mut self) -> (r: bool)
        ensures
            r ==> *final(self) == increased(*old(self), final(self).pid),
            !r ==> *final(self) == *old(self) && old(self).counter == 0,
            old(self).counter != 0 ==> r,
    {
        let this_pid = current_pid();
        if self.pid != this_pid && self.counter == 0 {
            return false;
        }
        self.increase_in(this_pid);
        true
    }

    /// Takes one more reference in process `this_pid`.
    pub fn increase_in(&mut self, this_pid: i32)
        requires
            old(self).pid == this_pid || old(self).counter != 0,
        ensures
            *final(self) == increased(*old(self), this_pid),
    {
        let previous_pid = self.pid;
        let count = self.counter;
        self.pid = this_pid;
        if previous_pid == this_pid {
            self.counter = self.counter.wrapping_add(1);
        } else {
            self.counter = self.counter - (count - 1);
        }
    }

    /// Drops one reference in process `current_pid`, and tells whether it was the last one
    /// of that process. A counter that has just changed process holds no reference there.
    pub fn decrease(&mut self, current_pid: i32) -> (r: DecreaseResult)
        ensures
            (*final(self), r) == decreased(*old(self), current_pid),
    {
        let previous_pid = self.pid;
        self.pid = current_pid;
        if previous_pid == current_pid {
            let previous = self.counter;
            self.counter = self.counter.wrapping_sub(1);
            if previous == 1 {
                DecreaseResult::YouAreTheLastOne
            } else {
                DecreaseResult::MoveAlong
            }
        } else {
            DecreaseResult::YouAreTheLastOne
        }
    }
}

/// In one process, dropping a reference undoes taking one: the counter is as before, and
/// the dropped reference was not the last.
pub proof fn law_decrease_undoes_increase(s: PerProcessReferences, pid: i32)
    requires
        s.pid == pid,
        1 <= s.counter < usize::MAX,
    ensures
        decreased(increased(s, pid), pid) == (s, DecreaseResult::MoveAlong),
{
}

/// A counter with `n` references in one process reports the last reference exactly when
/// the `n`-th one is dropped.
pub proof fn law_last_reference(s: PerProcessReferences, pid: i32)
    requires
        s.pid == pid,
        s.counter >= 1,
    ensures
        (decreased(s, pid).1 == DecreaseResult::YouAreTheLastOne) <==> s.counter == 1,
{
}

/// A counter that reaches another process starts there with a single reference, which is
/// then the last one.
pub proof fn law_new_process_starts_over(s: PerProcessReferences, pid: i32)
    requires
        s.pid != pid,
        s.counter != 0,
    ensures
        increased(s, pid).counter == 1,
        decreased(increased(s, pid), pid).1 == DecreaseResult::YouAreTheLastOne,
{
}

/// A handle dropped in a process the counter was not counting in (a copy that reached a
/// forked process) is the last one there; the counter moves to that process and keeps its
/// count.
pub proof fn law_copied_counter_is_last(s: PerProcessReferences, pid: i32)
    requires
        s.pid != pid,
    ensures
        decreased(s, pid).1 == DecreaseResult::YouAreTheLastOne,
        decreased(s, pid).0.pid == pid,
        decreased(s, pid).0.counter == s.counter,
{
}

/// A reference taken in the process the counter belongs to adds one to it; one taken in
/// another process leaves a single reference there.
pub proof fn law_increase_counts_per_process(s: PerProcessReferences, pid: i32)
    requires
        s.counter < usize::MAX,
    ensures
        increased(s, pid).pid == pid,
        s.pid == pid ==> increased(s, pid).counter == s.counter + 1,
        s.pid != pid ==> increased(s, pid).counter == 1,
{
}

/// The counter after `n` references are taken in process `pid`.
pub open spec fn increased_times(s: PerProcessReferences, pid: i32, n: nat) -> PerProcessReferences
    decreases n,
{
    if n == 0 {
        s
    } else {
        increased(increased_times(s, pid, (n - 1) as nat), pid)
    }
}

/// The counter after `n` references are dropped in process `pid`.
pub open spec fn decreased_times(s: PerProcessReferences, pid: i32, n: nat) -> PerProcessReferences
    decreases n,
{
    if n == 0 {
        s
    } else {
        decreased(decreased_times(s, pid, (n - 1) as nat), pid).0
    }
}

proof fn lemma_increased_times(pid: i32, n: nat)
    requires
        n < usize::MAX,
    ensures
        increased_times(PerProcessReferences { counter: 1, pid }, pid, n) == (PerProcessReferences {
            counter: (n + 1) as usize,
            pid,
        }),
    decreases n,
{
    if n > 0 {
        lemma_increased_times(pid, (n - 1) as nat);
    }
}

proof fn lemma_decreased_times(s: PerProcessReferences, pid: i32, k: nat)
    requires
        s.pid == pid,
        k <= s.counter,
    ensures
        decreased_times(s, pid, k) == (PerProcessReferences { counter: (s.counter - k) as usize, pid }),
    decreases k,
{
    if k > 0 {
        lemma_decreased_times(s, pid, (k - 1) as nat);
    }
}

/// A counter created in process `pid`, with `n` more references taken there, holds `n + 1`
/// references; of the next `n + 1` references dropped there, the first `n` report that others
/// remain and the last one reports that it was the last.
pub proof fn law_n_references(pid: i32, n: nat)
    requires
        n < usize::MAX,
    ensures
        increased_times(PerProcessReferences { counter: 1, pid }, pid, n).counter == n + 1,
        forall|k: nat|
            k < n ==> #[trigger] decreased(
                decreased_times(increased_times(PerProcessReferences { counter: 1, pid }, pid, n), pid, k),
                pid,
            ).1 == DecreaseResult::MoveAlong,
        decreased(
            decreased_times(increased_times(PerProcessReferences { counter: 1, pid }, pid, n), pid, n),
            pid,
        ).1 == DecreaseResult::YouAreTheLastOne,
{
    let s = increased_times(PerProcessReferences { counter: 1, pid }, pid, n);
    lemma_increased_times(pid, n);
    assert forall|k: nat| k < n implies #[trigger] decreased(decreased_times(s, pid, k), pid).1
        == DecreaseResult::MoveAlong by {
        lemma_decreased_times(s, pid, k);
    }
    lemma_decreased_times(s, pid, n);
}

} // verus!
