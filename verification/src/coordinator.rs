//! The batch coordinator: picks the candidate forks out of the account's
//! repository listing, collects one result per fork — a verdict or a
//! per-fork failure, in completion order, without letting one failure halt
//! the batch — and turns the verdicts into the deletion selection.

use vstd::prelude::*;
use crate::model::ForkInfo;
use crate::model::Repository;

verus! {

/// Whether a listed repository is a candidate for classification.
pub open spec fn is_candidate(r: Repository) -> bool {
    r.fork
}

/// The candidates among a listing, in listing order.
pub open spec fn candidates_of(repos: Seq<Repository>) -> Seq<Repository> {
    repos.filter(|r: Repository| is_candidate(r))
}

/// Picks the forks out of the account's repository listing, keeping their
/// order.
pub fn candidate_forks(repos: &Vec<Repository>) -> (forks: Vec<Repository>)
    ensures
        forks@ == candidates_of(repos@),
{
    let mut forks: Vec<Repository> = Vec::new();
    let mut i: usize = 0;
    while i < repos.len()
        invariant
            i <= repos@.len(),
            forks@ == candidates_of(repos@.subrange(0, i as int)),
        decreases repos@.len() - i,
    {
        proof {
            reveal(Seq::filter);
            let prefix = repos@.subrange(0, i as int);
            let extended = repos@.subrange(0, i as int + 1);
            assert(extended.drop_last() =~= prefix);
            assert(extended.last() == repos@[i as int]);
        }
        if repos[i].fork {
            forks.push(repos[i].clone());
        }
        i = i + 1;
    }
    proof {
        assert(repos@.subrange(0, repos@.len() as int) =~= repos@);
    }
    forks
}

/// One fork's result, as the coordinator records it: a verdict, or the
/// fork's displayed name with an account of why its classification failed.
pub enum BatchEntry {
    /// The fork was classified.
    Classified(ForkInfo),
    /// The fork's classification failed; the batch goes on regardless.
    Failed(String, String),
}

/// Collects one entry per candidate fork, in completion order (results may
/// arrive in any order), and reports progress as each fork finishes.
pub struct BatchCollector {
    total: usize,
    entries: Vec<BatchEntry>,
}

impl BatchCollector {
    /// How many forks the batch set out to classify.
    pub closed spec fn total(self) -> nat {
        self.total as nat
    }

    /// The entries recorded so far, in completion order.
    pub closed spec fn recorded(self) -> Seq<BatchEntry> {
        self.entries@
    }

    /// Never more entries than forks: exactly one entry is recorded per fork.
    pub open spec fn wf(self) -> bool {
        self.recorded().len() <= self.total()
    }

    /// A collector expecting one entry for each of `total` forks.
    pub fn new(total: usize) -> (c: BatchCollector)
        ensures
            c.wf(),
            c.total() == total,
            c.recorded() == Seq::<BatchEntry>::empty(),
    {
        BatchCollector { total, entries: Vec::new() }
    }

    /// Records one fork's result as it finishes.
    pub fn record(&mut self, entry: BatchEntry)
        requires
            old(self).wf(),
            old(self).recorded().len() < old(self).total(),
        ensures
            final(self).wf(),
            final(self).total() == old(self).total(),
            final(self).recorded() == old(self).recorded().push(entry),
    {
        self.entries.push(entry);
    }

    /// The progress report: how many forks have finished, out of how many.
    pub fn progress(&self) -> (p: (usize, usize))
        ensures
            p.0 == self.recorded().len(),
            p.1 == self.total(),
    {
        (self.entries.len(), self.total)
    }

    /// Whether every fork has finished.
    pub fn is_complete(&self) -> (b: bool)
        ensures
            b == (self.recorded().len() == self.total()),
    {
        self.entries.len() == self.total
    }

    /// Hands out the recorded entries once every fork has finished.
    pub fn into_entries(self) -> (v: Vec<BatchEntry>)
        requires
            self.recorded().len() == self.total(),
        ensures
            v@ == self.recorded(),
    {
        self.entries
    }
}

/// The indices of the useless forks within a verdict list, in increasing
/// order: the selection the auto mode deletes, and the pre-selection the
/// interactive prompt starts from.
pub open spec fn useless_indices(infos: Seq<ForkInfo>, n: int) -> Seq<int>
    decreases n,
{
    if n <= 0 {
        Seq::empty()
    } else if infos[n - 1].is_useless {
        useless_indices(infos, n - 1).push(n - 1)
    } else {
        useless_indices(infos, n - 1)
    }
}

/// Law: the auto-mode selection is sound and complete — it lists exactly
/// the indices of the useless forks, each in range, in strictly increasing
/// order.
pub proof fn lemma_useless_indices_correct(infos: Seq<ForkInfo>, n: int)
    requires
        0 <= n <= infos.len(),
    ensures
        ({
            let sel = useless_indices(infos, n);
            &&& forall|j: int|
                0 <= j < sel.len() ==> 0 <= #[trigger] sel[j] < n && infos[sel[j]].is_useless
            &&& forall|j: int| 0 < j < sel.len() ==> sel[j - 1] < #[trigger] sel[j]
            &&& forall|i: int| 0 <= i < n && infos[i].is_useless ==> sel.contains(i)
        }),
    decreases n,
{
    if n > 0 {
        lemma_useless_indices_correct(infos, n - 1);
        let prev = useless_indices(infos, n - 1);
        let sel = useless_indices(infos, n);
        assert forall|i: int| 0 <= i < n && infos[i].is_useless implies sel.contains(i) by {
            if i < n - 1 {
                assert(prev.contains(i));
                let j = choose|j: int| 0 <= j < prev.len() && prev[j] == i;
                assert(sel[j] == i);
            } else {
                assert(sel[sel.len() - 1] == n - 1);
            }
        }
    }
}

/// The indices of the useless forks, in increasing order.
pub fn auto_selection(infos: &Vec<ForkInfo>) -> (sel: Vec<usize>)
    ensures
        sel@.map_values(|u: usize| u as int) == useless_indices(infos@, infos@.len() as int),
{
    let mut sel: Vec<usize> = Vec::new();
    let mut i: usize = 0;
    while i < infos.len()
        invariant
            i <= infos@.len(),
            sel@.map_values(|u: usize| u as int) == useless_indices(infos@, i as int),
        decreases infos@.len() - i,
    {
        if infos[i].is_useless {
            sel.push(i);
            proof {
                assert(sel@.map_values(|u: usize| u as int) =~= useless_indices(
                    infos@,
                    i as int,
                ).push(i as int));
            }
        }
        i = i + 1;
    }
    sel
}

/// How many forks a verdict list classifies as useless.
pub fn useless_count(infos: &Vec<ForkInfo>) -> (n: usize)
    ensures
        n == useless_indices(infos@, infos@.len() as int).len(),
{
    let mut n: usize = 0;
    let mut i: usize = 0;
    while i < infos.len()
        invariant
            i <= infos@.len(),
            n <= i,
            n == useless_indices(infos@, i as int).len(),
        decreases infos@.len() - i,
    {
        if infos[i].is_useless {
            n = n + 1;
        }
        i = i + 1;
    }
    n
}

/// The interactive prompt's pre-selection: one flag per fork, set exactly
/// for the useless ones.
pub fn default_selection_flags(infos: &Vec<ForkInfo>) -> (flags: Vec<bool>)
    ensures
        flags@.len() == infos@.len(),
        forall|i: int| 0 <= i < infos@.len() ==> flags@[i] == infos@[i].is_useless,
{
    let mut flags: Vec<bool> = Vec::new();
    let mut i: usize = 0;
    while i < infos.len()
        invariant
            i <= infos@.len(),
            flags@.len() == i,
            forall|j: int| 0 <= j < i as int ==> flags@[j] == infos@[j].is_useless,
        decreases infos@.len() - i,
    {
        flags.push(infos[i].is_useless);
        i = i + 1;
    }
    flags
}

/// The cooldown observed before deletion proceeds: longer before a batch
/// of several repositories than before a single one.
pub fn cooldown_seconds(selection_count: usize) -> (s: u64)
    ensures
        selection_count > 1 ==> s == 20,
        selection_count <= 1 ==> s == 5,
{
    if selection_count > 1 {
        20
    } else {
        5
    }
}

} // verus!
