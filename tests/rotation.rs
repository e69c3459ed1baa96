use photo_cycler::candidates::EntryInfo;
use photo_cycler::rotation::{candidate_at, pick_candidate, Action, Alias, Phase, Rotator};

fn file(name: &str) -> EntryInfo {
    EntryInfo { name: name.to_string(), is_file: Some(true) }
}

fn dir(name: &str) -> EntryInfo {
    EntryInfo { name: name.to_string(), is_file: Some(false) }
}

fn run_tick(rot: &mut Rotator, entries: &Vec<EntryInfo>) -> Option<usize> {
    match rot.scanned(entries) {
        Action::Wait => None,
        Action::RemoveAlias => match rot.removal_done(true) {
            Action::CreateLink { target } => {
                assert_eq!(rot.link_done(true), Action::Wait);
                Some(target)
            }
            other => panic!("unexpected action {:?}", other),
        },
        other => panic!("unexpected action {:?}", other),
    }
}

#[test]
fn new_rotator_is_idle() {
    let rot = Rotator::new();
    assert_eq!(rot.phase, Phase::Idle);
    assert_eq!(rot.alias, Alias::Unknown);
}

#[test]
fn empty_scan_leaves_alias() {
    let mut rot = Rotator::new();
    rot.alias = Alias::Resolves("old.jpg".to_string());
    let entries: Vec<EntryInfo> = vec![];
    assert_eq!(rot.scanned(&entries), Action::Wait);
    assert_eq!(rot.phase, Phase::Idle);
    assert_eq!(rot.alias, Alias::Resolves("old.jpg".to_string()));
}

#[test]
fn non_matching_scan_leaves_alias() {
    let mut rot = Rotator::new();
    rot.alias = Alias::Resolves("old.jpg".to_string());
    let entries = vec![file("c.png"), dir("d"), file("notes.txt")];
    assert_eq!(rot.scanned(&entries), Action::Wait);
    assert_eq!(rot.alias, Alias::Resolves("old.jpg".to_string()));
}

#[test]
fn failed_scan_leaves_alias() {
    let mut rot = Rotator::new();
    rot.alias = Alias::Resolves("old.jpg".to_string());
    assert_eq!(rot.scan_failed(), Action::Wait);
    assert_eq!(rot.phase, Phase::Idle);
    assert_eq!(rot.alias, Alias::Resolves("old.jpg".to_string()));
}

#[test]
fn successful_tick_publishes_a_candidate() {
    let entries = vec![file("a.jpg"), file("b.JPEG"), file("c.png"), dir("d")];
    for _ in 0..50 {
        let mut rot = Rotator::new();
        let target = run_tick(&mut rot, &entries).unwrap();
        assert!(target == 0 || target == 1);
        assert_eq!(rot.alias, Alias::Resolves(entries[target].name.clone()));
        assert_eq!(rot.phase, Phase::Idle);
    }
}

#[test]
fn single_candidate_is_always_republished() {
    let entries = vec![file("only.jpeg"), file("c.png"), dir("d.jpg")];
    let mut rot = Rotator::new();
    for _ in 0..20 {
        assert_eq!(run_tick(&mut rot, &entries), Some(0));
        assert_eq!(rot.alias, Alias::Resolves("only.jpeg".to_string()));
    }
}

#[test]
fn failed_removal_keeps_prior_alias() {
    let entries = vec![file("a.jpg"), file("b.jpg")];
    let mut rot = Rotator::new();
    rot.alias = Alias::Resolves("old.jpg".to_string());
    assert_eq!(rot.scanned(&entries), Action::RemoveAlias);
    assert_eq!(rot.removal_done(false), Action::Wait);
    assert_eq!(rot.phase, Phase::Idle);
    assert_eq!(rot.alias, Alias::Resolves("old.jpg".to_string()));
}

#[test]
fn failed_link_leaves_alias_absent() {
    let entries = vec![file("a.jpg")];
    let mut rot = Rotator::new();
    rot.alias = Alias::Resolves("old.jpg".to_string());
    assert_eq!(rot.scanned(&entries), Action::RemoveAlias);
    assert_eq!(rot.removal_done(true), Action::CreateLink { target: 0 });
    assert_eq!(rot.alias, Alias::Absent);
    assert_eq!(rot.link_done(false), Action::Wait);
    assert_eq!(rot.alias, Alias::Absent);
    assert_eq!(rot.phase, Phase::Idle);
}

#[test]
fn begin_publish_names_the_target() {
    let entries = vec![file("a.jpg"), file("b.jpg")];
    let mut rot = Rotator::new();
    assert_eq!(rot.begin_publish(&entries, 1), Action::RemoveAlias);
    assert_eq!(rot.phase, Phase::Removing { target: 1, name: "b.jpg".to_string() });
}

#[test]
fn outcomes_out_of_phase_are_ignored() {
    let mut rot = Rotator::new();
    rot.alias = Alias::Resolves("old.jpg".to_string());
    assert_eq!(rot.removal_done(true), Action::Wait);
    assert_eq!(rot.link_done(true), Action::Wait);
    assert_eq!(rot.phase, Phase::Idle);
    assert_eq!(rot.alias, Alias::Resolves("old.jpg".to_string()));
}

#[test]
fn pick_candidate_draws_only_candidates() {
    let none: Vec<EntryInfo> = vec![file("x.gif")];
    assert_eq!(pick_candidate(&none), None);
    let entries = vec![dir("a.jpg"), file("b.png"), file("c.JPG"), file("d.jpeg")];
    let mut seen = [false; 4];
    for _ in 0..200 {
        let i = pick_candidate(&entries).unwrap();
        assert!(i == 2 || i == 3);
        seen[i] = true;
    }
    assert!(seen[2] && seen[3]);
}

#[test]
fn candidate_at_counts_candidates_in_order() {
    let entries = vec![dir("a.jpg"), file("b.png"), file("c.JPG"), file("d.txt"), file("e.jpeg")];
    assert_eq!(candidate_at(&entries, 0), 2);
    assert_eq!(candidate_at(&entries, 1), 4);
}
