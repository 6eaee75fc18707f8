use disfork::classifier::BeginStep;
use disfork::classifier::ForkAnalyzer;
use disfork::classifier::ScanStep;
use disfork::coordinator::BatchCollector;
use disfork::coordinator::BatchEntry;
use disfork::coordinator::auto_selection;
use disfork::coordinator::candidate_forks;
use disfork::coordinator::cooldown_seconds;
use disfork::coordinator::default_selection_flags;
use disfork::coordinator::useless_count;
use disfork::gate::AdmissionGate;
use disfork::model::Branch;
use disfork::model::CompareOutcome;
use disfork::model::ForkInfo;
use disfork::model::RepoRef;
use disfork::model::Repository;

fn repo(name: &str, fork: bool, parent: Option<&str>) -> Repository {
    Repository {
        name: name.to_string(),
        full_name: Some(format!("alice/{}", name)),
        owner: Some("alice".to_string()),
        fork,
        parent: parent.map(|p| RepoRef { name: name.to_string(), owner: Some(p.to_string()) }),
    }
}

fn branches(names: &[&str]) -> Vec<Branch> {
    names.iter().map(|n| Branch { name: n.to_string() }).collect()
}

/// Classifies one fork sequentially: starts the analysis and feeds the
/// given comparison outcomes until the verdict settles.
fn classify(analyzer: &ForkAnalyzer, fork: Repository, names: &[&str], outcomes: &[CompareOutcome])
    -> ForkInfo {
    let owner = fork.owner.clone().expect("test forks carry an owner");
    match analyzer.begin(&owner, fork, &branches(names)).expect("classification must start") {
        BeginStep::Decided(info) => info,
        BeginStep::Compare(scan, reqs) => {
            assert_eq!(reqs.len(), names.len());
            let mut step = ScanStep::Continue(scan);
            let mut fed = outcomes.iter();
            loop {
                match step {
                    ScanStep::Decided(info) => break info,
                    ScanStep::Continue(scan) => {
                        step = scan.on_outcome(*fed.next().expect("outcomes must suffice"));
                    },
                }
            }
        },
    }
}

#[test]
fn three_forks_end_to_end() {
    // An account with three forks: one branchless, one with a branch ahead
    // of upstream, one with an unresolvable parent. The first and last are
    // useless; the auto-mode selection picks exactly those two.
    let analyzer = ForkAnalyzer::new(50);
    let listing = vec![
        repo("a", true, Some("up")),
        repo("b", true, Some("up")),
        repo("c", true, None),
        repo("library", false, None),
    ];
    let forks = candidate_forks(&listing);
    assert_eq!(forks.len(), 3);

    let mut collector = BatchCollector::new(forks.len());
    let plans: Vec<(Repository, Vec<&str>, Vec<CompareOutcome>)> = vec![
        (forks[0].clone(), vec![], vec![]),
        (
            forks[1].clone(),
            vec!["main", "dev"],
            vec![CompareOutcome::AheadBy(0), CompareOutcome::AheadBy(2)],
        ),
        (forks[2].clone(), vec!["main"], vec![]),
    ];
    for (fork, names, outcomes) in plans {
        let info = classify(&analyzer, fork, &names, &outcomes);
        collector.record(BatchEntry::Classified(info));
        let (done, total) = collector.progress();
        assert!(done <= total);
    }
    assert!(collector.is_complete());

    let infos: Vec<ForkInfo> = collector
        .into_entries()
        .into_iter()
        .map(|e| match e {
            BatchEntry::Classified(info) => info,
            BatchEntry::Failed(name, why) => panic!("{} failed: {}", name, why),
        })
        .collect();
    assert!(infos[0].is_useless);
    assert!(!infos[1].is_useless);
    assert!(infos[2].is_useless);

    assert_eq!(auto_selection(&infos), vec![0, 2]);
    assert_eq!(useless_count(&infos), 2);
    assert_eq!(default_selection_flags(&infos), vec![true, false, true]);
}

#[test]
fn listing_without_forks_yields_no_candidates() {
    let listing = vec![repo("a", false, None), repo("b", false, None)];
    assert!(candidate_forks(&listing).is_empty());
}

#[test]
fn one_failure_does_not_halt_the_batch() {
    let mut collector = BatchCollector::new(2);
    collector.record(BatchEntry::Failed(
        "alice/broken".to_string(),
        "the branch listing could not be fetched".to_string(),
    ));
    assert!(!collector.is_complete());
    let analyzer = ForkAnalyzer::new(50);
    let info = classify(&analyzer, repo("fine", true, Some("up")), &[], &[]);
    collector.record(BatchEntry::Classified(info));
    assert!(collector.is_complete());
    let entries = collector.into_entries();
    assert!(matches!(entries[0], BatchEntry::Failed(..)));
    assert!(matches!(entries[1], BatchEntry::Classified(..)));
}

#[test]
fn gate_of_capacity_one_serializes() {
    let mut gate = AdmissionGate::new(1);
    assert!(gate.try_acquire());
    assert!(!gate.try_acquire());
    gate.release();
    assert!(gate.try_acquire());
    assert_eq!(gate.held(), 1);
    assert_eq!(gate.available(), 0);
}

#[test]
fn gate_bounds_concurrent_admissions() {
    let mut gate = AdmissionGate::new(3);
    let mut admitted = 0;
    for _ in 0..5 {
        if gate.try_acquire() {
            admitted += 1;
        }
    }
    assert_eq!(admitted, 3);
    gate.release();
    assert!(gate.try_acquire());
}

#[test]
fn cooldown_is_longer_for_batches() {
    assert_eq!(cooldown_seconds(0), 5);
    assert_eq!(cooldown_seconds(1), 5);
    assert_eq!(cooldown_seconds(2), 20);
    assert_eq!(cooldown_seconds(100), 20);
}
