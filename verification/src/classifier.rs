//! The fork classifier: decides, for one fork, whether it is useless.
//!
//! A fork with no branches is useless; one with more branches than the
//! analysis threshold is kept unexamined (skipping the per-branch cost errs
//! toward not deleting); one whose upstream parent cannot be resolved is
//! useless (its independent value cannot be proven); otherwise every branch
//! is compared against its upstream counterpart, and the first branch found
//! ahead — or missing upstream — settles the fork as worth keeping, while a
//! full scan of clean branches settles it as useless.

use vstd::prelude::*;
use crate::model::AnalyzeError;
use crate::model::Branch;
use crate::model::CompareOutcome;
use crate::model::ForkInfo;
use crate::model::Repository;

verus! {

/// Whether one comparison outcome is positive evidence of divergence: a
/// non-zero ahead-by count, or a branch that cannot be resolved upstream.
pub open spec fn outcome_diverges(o: CompareOutcome) -> bool {
    match o {
        CompareOutcome::AheadBy(n) => n > 0,
        CompareOutcome::MissingUpstream => true,
    }
}

/// Whether any outcome in a collection is evidence of divergence.
pub open spec fn any_divergence(outcomes: Seq<CompareOutcome>) -> bool {
    exists|i: int| 0 <= i < outcomes.len() && outcome_diverges(outcomes[i])
}

/// The classification rule, over a complete view of one fork: its branch
/// count, the analysis threshold, whether its upstream parent resolves, and
/// the comparison outcome of each branch (read only when the first three
/// do not already settle the verdict).
pub open spec fn useless_spec(
    branch_count: nat,
    max_branches: nat,
    has_parent: bool,
    outcomes: Seq<CompareOutcome>,
) -> bool {
    if branch_count == 0 {
        true
    } else if branch_count > max_branches {
        false
    } else if !has_parent {
        true
    } else {
        !any_divergence(outcomes)
    }
}

/// One branch comparison for the caller to issue remotely: ask the
/// upstream repository `owner/repo` how far `head` is ahead of `base`.
pub struct CompareRequest {
    /// The upstream repository's owner login.
    pub owner: String,
    /// The upstream repository's short name.
    pub repo: String,
    /// The upstream branch: the fork branch's own name.
    pub base: String,
    /// The fork branch, qualified as `forkOwner:branchName`.
    pub head: String,
}

/// The scan over a fork's branch comparisons: how many are still
/// unresolved, and (as ghost history) the outcomes absorbed so far, all of
/// them clean — a divergent outcome ends the scan at once.
pub struct ComparisonScan {
    repo: Repository,
    remaining: usize,
    seen: Ghost<Seq<CompareOutcome>>,
}

/// What a step of the scan yields: a settled verdict, or the scan itself,
/// still waiting on outcomes.
pub enum ScanStep {
    /// The verdict is settled; outstanding comparisons may be cancelled,
    /// and their results are discarded.
    Decided(ForkInfo),
    /// More outcomes are needed.
    Continue(ComparisonScan),
}

impl ComparisonScan {
    /// The repository snapshot the verdict will be attached to.
    pub closed spec fn repo_view(self) -> Repository {
        self.repo
    }

    /// How many branch comparisons have not been absorbed yet.
    pub closed spec fn pending(self) -> nat {
        self.remaining as nat
    }

    /// The outcomes absorbed so far.
    pub closed spec fn seen_view(self) -> Seq<CompareOutcome> {
        self.seen@
    }

    /// A live scan has absorbed only clean outcomes: any divergent one
    /// would have settled the verdict.
    pub open spec fn wf(self) -> bool {
        &&& self.pending() > 0
        &&& !any_divergence(self.seen_view())
    }

    /// Absorbs one comparison outcome, in whatever order outcomes resolve.
    /// A divergent outcome settles the fork as kept at once, regardless of
    /// how many comparisons are still in flight; a clean outcome either
    /// leaves the scan waiting or, when it was the last one, settles the
    /// fork as useless.
    pub fn on_outcome(self, outcome: CompareOutcome) -> (step: ScanStep)
        requires
            self.wf(),
        ensures
            outcome_diverges(outcome) ==> (step matches ScanStep::Decided(info)
                && info.repo == self.repo_view()
                && info.is_useless == !any_divergence(self.seen_view().push(outcome))
                && !info.is_useless),
            !outcome_diverges(outcome) && self.pending() > 1 ==> (step matches
                ScanStep::Continue(s)
                && s.repo_view() == self.repo_view()
                && s.pending() == self.pending() - 1
                && s.seen_view() == self.seen_view().push(outcome)
                && s.wf()),
            !outcome_diverges(outcome) && self.pending() == 1 ==> (step matches
                ScanStep::Decided(info)
                && info.repo == self.repo_view()
                && info.is_useless == !any_divergence(self.seen_view().push(outcome))
                && info.is_useless),
    {
        let divergent = match outcome {
            CompareOutcome::AheadBy(n) => n > 0,
            CompareOutcome::MissingUpstream => true,
        };
        if divergent {
            proof {
                assert(outcome_diverges(self.seen_view().push(outcome).last()));
            }
            ScanStep::Decided(ForkInfo { repo: self.repo, is_useless: false })
        } else if self.remaining <= 1 {
            proof {
                let all = self.seen_view().push(outcome);
                assert forall|i: int| 0 <= i < all.len() implies !outcome_diverges(all[i]) by {
                    if i < self.seen_view().len() {
                        assert(!any_divergence(self.seen_view()));
                        assert(all[i] == self.seen_view()[i]);
                    }
                }
            }
            ScanStep::Decided(ForkInfo { repo: self.repo, is_useless: true })
        } else {
            let next = ComparisonScan {
                repo: self.repo,
                remaining: self.remaining - 1,
                seen: Ghost(self.seen@.push(outcome)),
            };
            proof {
                assert forall|i: int| 0 <= i < next.seen_view().len() implies !outcome_diverges(
                    next.seen_view()[i],
                ) by {
                    if i < self.seen_view().len() {
                        assert(!any_divergence(self.seen_view()));
                        assert(next.seen_view()[i] == self.seen_view()[i]);
                    }
                }
            }
            ScanStep::Continue(next)
        }
    }
}

/// What starting one fork's analysis yields: a verdict settled without any
/// comparison, or a scan together with the comparison each branch needs.
pub enum BeginStep {
    /// The verdict is settled; no comparison is issued.
    Decided(ForkInfo),
    /// One comparison per branch must be issued (in any order, under the
    /// shared admission gate), and each outcome fed to the scan.
    Compare(ComparisonScan, Vec<CompareRequest>),
}

/// The classification engine for forks of one account, configured with the
/// branch-count threshold above which a fork is kept unexamined.
#[derive(Clone)]
pub struct ForkAnalyzer {
    /// The analysis threshold: a fork with more branches is kept without
    /// any divergence analysis.
    pub max_branches: usize,
}

/// The owner login under which a fork must be re-fetched and compared; a
/// snapshot without one cannot be classified at all.
pub fn fork_owner(repo: &Repository) -> (r: Result<&String, AnalyzeError>)
    ensures
        match r {
            Ok(o) => repo.owner matches Some(x) && o@ == x@,
            Err(e) => e == AnalyzeError::MissingOwner && repo.owner is None,
        },
{
    match &repo.owner {
        Some(o) => Ok(o),
        None => Err(AnalyzeError::MissingOwner),
    }
}

impl ForkAnalyzer {
    /// An analyzer with the given branch-count threshold.
    pub fn new(max_branches: usize) -> (a: ForkAnalyzer)
        ensures
            a.max_branches == max_branches,
    {
        ForkAnalyzer { max_branches }
    }

    /// Starts the analysis of one fork, given its re-fetched snapshot and
    /// its full branch list. Settles the verdict outright when no branch,
    /// too many branches or no resolvable parent decides it; fails when the
    /// parent reference lacks an owner login (no comparison reference can
    /// be formed); otherwise returns the scan and one comparison request
    /// per branch, in branch-list order.
    pub fn begin(&self, owner: &String, repo: Repository, branches: &Vec<Branch>) -> (r: Result<
        BeginStep,
        AnalyzeError,
    >)
        ensures
            branches@.len() == 0 ==> (r matches Ok(BeginStep::Decided(info))
                && info.repo == repo
                && info.is_useless),
            branches@.len() > self.max_branches ==> (r matches Ok(BeginStep::Decided(info))
                && info.repo == repo
                && !info.is_useless),
            0 < branches@.len() <= self.max_branches && repo.parent is None ==> (r matches Ok(
                BeginStep::Decided(info),
            ) && info.repo == repo && info.is_useless),
            repo.parent matches Some(p) ==> ((0 < branches@.len() <= self.max_branches
                && p.owner is None) ==> r == Err::<BeginStep, AnalyzeError>(
                AnalyzeError::MissingParentOwner,
            )),
            repo.parent matches Some(p) ==> (p.owner matches Some(po) ==> ((0 < branches@.len()
                <= self.max_branches) ==> (r matches Ok(BeginStep::Compare(scan, reqs))
                && scan.repo_view() == repo
                && scan.pending() == branches@.len()
                && scan.seen_view() == Seq::<CompareOutcome>::empty()
                && scan.wf()
                && reqs@.len() == branches@.len()
                && forall|j: int|
                    0 <= j < reqs@.len() ==> {
                        &&& #[trigger] reqs@[j].owner@ == po@
                        &&& reqs@[j].repo@ == p.name@
                        &&& reqs@[j].base@ == branches@[j].name@
                        &&& reqs@[j].head@ == owner@ + ":"@ + branches@[j].name@
                    }))),
            r matches Ok(BeginStep::Decided(info)) ==> info.is_useless == useless_spec(
                branches@.len(),
                self.max_branches as nat,
                repo.parent is Some,
                Seq::<CompareOutcome>::empty(),
            ),
    {
        if branches.len() == 0 {
            return Ok(BeginStep::Decided(ForkInfo { repo, is_useless: true }));
        }
        if branches.len() > self.max_branches {
            return Ok(BeginStep::Decided(ForkInfo { repo, is_useless: false }));
        }
        let parent_refs: Option<(String, String)> = match &repo.parent {
            None => None,
            Some(p) => match &p.owner {
                None => {
                    return Err(AnalyzeError::MissingParentOwner);
                },
                Some(po) => Some((po.clone(), p.name.clone())),
            },
        };
        let (parent_owner, parent_name) = match parent_refs {
            None => {
                return Ok(BeginStep::Decided(ForkInfo { repo, is_useless: true }));
            },
            Some(pair) => pair,
        };
        let mut reqs: Vec<CompareRequest> = Vec::new();
        let mut i: usize = 0;
        while i < branches.len()
            invariant
                i <= branches@.len(),
                reqs@.len() == i,
                repo.parent matches Some(p) && p.owner matches Some(po) && parent_owner@ == po@
                    && parent_name@ == p.name@,
                forall|j: int|
                    0 <= j < i as int ==> {
                        &&& #[trigger] reqs@[j].owner@ == parent_owner@
                        &&& reqs@[j].repo@ == parent_name@
                        &&& reqs@[j].base@ == branches@[j].name@
                        &&& reqs@[j].head@ == owner@ + ":"@ + branches@[j].name@
                    },
            decreases branches@.len() - i,
        {
            let branch = &branches[i];
            let mut head = owner.clone();
            head.append(":");
            head.append(branch.name.as_str());
            reqs.push(
                CompareRequest {
                    owner: parent_owner.clone(),
                    repo: parent_name.clone(),
                    base: branch.name.clone(),
                    head,
                },
            );
            i = i + 1;
        }
        let scan = ComparisonScan {
            repo,
            remaining: branches.len(),
            seen: Ghost(Seq::<CompareOutcome>::empty()),
        };
        Ok(BeginStep::Compare(scan, reqs))
    }
}

/// When the verdict is not settled outright — some branches, within the
/// threshold, parent resolvable — the classification rule reduces to the
/// divergence question alone, which is what the comparison scan answers.
pub proof fn lemma_scan_answers_rule(
    branch_count: nat,
    max_branches: nat,
    outcomes: Seq<CompareOutcome>,
)
    requires
        0 < branch_count <= max_branches,
    ensures
        useless_spec(branch_count, max_branches, true, outcomes) == !any_divergence(outcomes),
{
}

/// Law: a fork with no branches is classified useless, whatever its parent
/// and whatever outcomes are at hand.
pub proof fn lemma_no_branches_useless(
    max_branches: nat,
    has_parent: bool,
    outcomes: Seq<CompareOutcome>,
)
    ensures
        useless_spec(0, max_branches, has_parent, outcomes),
{
}

/// Law: a fork with more branches than the analysis threshold is kept,
/// whatever its parent and whatever outcomes are at hand — none is asked
/// for (`begin` settles such a fork without returning a scan).
pub proof fn lemma_over_threshold_kept(
    branch_count: nat,
    max_branches: nat,
    has_parent: bool,
    outcomes: Seq<CompareOutcome>,
)
    requires
        branch_count > max_branches,
    ensures
        !useless_spec(branch_count, max_branches, has_parent, outcomes),
{
}

/// Law: a fork whose upstream parent cannot be resolved is classified
/// useless — provided its branch count is within the analysis threshold; a
/// parentless fork with more branches than the threshold is kept instead.
pub proof fn lemma_no_parent_useless(
    branch_count: nat,
    max_branches: nat,
    outcomes: Seq<CompareOutcome>,
)
    requires
        branch_count <= max_branches,
    ensures
        useless_spec(branch_count, max_branches, false, outcomes),
{
}

/// Law: a fork every branch of which exists upstream with an ahead-by
/// count of exactly zero is classified useless — provided its branch count
/// is within the analysis threshold, since above it no comparison is made
/// and the fork is kept.
pub proof fn lemma_all_clean_useless(
    branch_count: nat,
    max_branches: nat,
    has_parent: bool,
    outcomes: Seq<CompareOutcome>,
)
    requires
        branch_count <= max_branches,
        outcomes.len() == branch_count,
        forall|i: int| 0 <= i < outcomes.len() ==> outcomes[i] == CompareOutcome::AheadBy(0),
    ensures
        useless_spec(branch_count, max_branches, has_parent, outcomes),
{
    assert forall|i: int| 0 <= i < outcomes.len() implies !outcome_diverges(outcomes[i]) by {
        assert(outcomes[i] == CompareOutcome::AheadBy(0));
    }
}

/// Law: a fork with at least one branch ahead of upstream is kept —
/// provided its parent resolves, since a parentless fork is classified
/// useless without any comparison being made.
pub proof fn lemma_ahead_branch_kept(
    branch_count: nat,
    max_branches: nat,
    outcomes: Seq<CompareOutcome>,
)
    requires
        outcomes.len() == branch_count,
        exists|i: int|
            0 <= i < outcomes.len() && (#[trigger] outcomes[i] matches CompareOutcome::AheadBy(n)
                && n > 0),
    ensures
        !useless_spec(branch_count, max_branches, true, outcomes),
{
    let i = choose|i: int|
        0 <= i < outcomes.len() && (#[trigger] outcomes[i] matches CompareOutcome::AheadBy(n)
            && n > 0);
    assert(outcome_diverges(outcomes[i]));
    assert(any_divergence(outcomes));
}

/// Law: a fork with at least one branch that cannot be resolved upstream
/// is kept — provided its parent resolves, since a parentless fork is
/// classified useless without any comparison being made.
pub proof fn lemma_missing_upstream_kept(
    branch_count: nat,
    max_branches: nat,
    outcomes: Seq<CompareOutcome>,
)
    requires
        outcomes.len() == branch_count,
        exists|i: int| 0 <= i < outcomes.len() && outcomes[i] == CompareOutcome::MissingUpstream,
    ensures
        !useless_spec(branch_count, max_branches, true, outcomes),
{
    let i = choose|i: int|
        0 <= i < outcomes.len() && outcomes[i] == CompareOutcome::MissingUpstream;
    assert(outcome_diverges(outcomes[i]));
    assert(any_divergence(outcomes));
}

} // verus!
