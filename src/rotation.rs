//! One tick of the rotation, as a step machine: the caller sleeps, scans the
//! directory, removes the stable alias and creates it anew as the machine
//! asks, and reports each outcome back.
use vstd::prelude::*;
use rand::Rng;
use crate::candidates::{EntryInfo, candidate_positions, filter_candidates, is_candidate};

verus! {

/// Where the stable alias stands, as far as the outcomes reported show it.
#[derive(Clone, Debug, PartialEq, Eq)]
pub enum Alias {
    /// Nothing has been reported about it yet.
    Unknown,
    /// It was removed and not created again.
    Absent,
    /// It resolves to the photo of this name.
    Resolves(String),
}

/// Where the current tick stands.
#[derive(Clone, Debug, PartialEq, Eq)]
pub enum Phase {
    /// Between ticks: the caller sleeps, then scans.
    Idle,
    /// A photo was chosen; the old alias is being removed.
    Removing { target: usize, name: String },
    /// The old alias is gone; the new one is being created.
    Linking { target: usize, name: String },
}

/// What the caller is asked to do next.
#[derive(Clone, Copy, Debug, PartialEq, Eq, Structural)]
pub enum Action {
    /// Sleep for the current interval, then scan the directory again.
    Wait,
    /// Remove the stable alias if it exists (an absent alias is a success).
    RemoveAlias,
    /// Create the stable alias, pointing at the entry at this position of
    /// the last scan.
    CreateLink { target: usize },
}

/// The state of the rotation between the caller's steps.
pub struct Rotator {
    pub phase: Phase,
    pub alias: Alias,
}

/// The state after `target` of the scanned `entries` was chosen.
pub open spec fn on_choice(s: Rotator, entries: Seq<EntryInfo>, target: int) -> (Rotator, Action) {
    (
        Rotator {
            phase: Phase::Removing { target: target as usize, name: entries[target].name },
            alias: s.alias,
        },
        Action::RemoveAlias,
    )
}

/// The state after a scan that found no candidate, or failed.
pub open spec fn on_nothing(s: Rotator) -> (Rotator, Action) {
    (Rotator { phase: Phase::Idle, alias: s.alias }, Action::Wait)
}

/// The state after the removal of the alias was reported.
pub open spec fn on_removed(s: Rotator, ok: bool) -> (Rotator, Action) {
    match s.phase {
        Phase::Removing { target, name } => if ok {
            (Rotator { phase: Phase::Linking { target, name }, alias: Alias::Absent }, Action::CreateLink { target })
        } else {
            on_nothing(s)
        },
        _ => on_nothing(s),
    }
}

/// The state after the creation of the alias was reported.
pub open spec fn on_linked(s: Rotator, ok: bool) -> (Rotator, Action) {
    match s.phase {
        Phase::Linking { target, name } => if ok {
            (Rotator { phase: Phase::Idle, alias: Alias::Resolves(name) }, Action::Wait)
        } else {
            (Rotator { phase: Phase::Idle, alias: Alias::Absent }, Action::Wait)
        },
        _ => on_nothing(s),
    }
}

/// Relies on `rand::thread_rng` and `Rng::gen_range(low, high)` of rand 0.7:
/// a uniform draw in `[low, high)`, which panics when `low >= high`.
#[verifier::external_body]
fn random_below(n: usize) -> (r: usize)
    requires
        0 < n,
    ensures
        r < n,
{
    rand::thread_rng().gen_range(0, n)
}

/// The position among `entries` of the candidate numbered `draw`, counting
/// candidates from zero in the order of `entries`.
pub fn candidate_at(entries: &Vec<EntryInfo>, draw: usize) -> (r: usize)
    requires
        draw < candidate_positions(entries@).len(),
    ensures
        r as int == candidate_positions(entries@)[draw as int],
{
    let positions = filter_candidates(entries);
    assert(positions@.map_values(|k: usize| k as int)[draw as int] == positions@[draw as int] as int);
    positions[draw]
}

/// Picks one candidate of `entries` uniformly at random: `None` exactly when
/// there is none, else the position of the candidate numbered by a draw
/// taken uniformly below the number of candidates.
pub fn pick_candidate(entries: &Vec<EntryInfo>) -> (r: Option<usize>)
    ensures
        r is None <==> candidate_positions(entries@).len() == 0,
        r matches Some(i) ==> candidate_positions(entries@).contains(i as int),
{
    let positions = filter_candidates(entries);
    assert(positions@.map_values(|i: usize| i as int).len() == positions@.len());
    if positions.len() == 0 {
        None
    } else {
        let draw = random_below(positions.len());
        let i = candidate_at(entries, draw);
        assert(candidate_positions(entries@)[draw as int] == i as int);
        Some(i)
    }
}

impl Rotator {
    /// A rotation between ticks, knowing nothing of the alias yet.
    pub fn new() -> (r: Rotator)
        ensures
            r.phase is Idle,
            r.alias is Unknown,
    {
        Rotator { phase: Phase::Idle, alias: Alias::Unknown }
    }

    /// The directory could not be read: the tick ends, the alias untouched.
    pub fn scan_failed(&mut self) -> (r: Action)
        ensures
            (*final(self), r) == on_nothing(*old(self)),
    {
        self.phase = Phase::Idle;
        Action::Wait
    }

    /// Starts publishing the entry at `target` of the scanned `entries`.
    pub fn begin_publish(&mut self, entries: &Vec<EntryInfo>, target: usize) -> (r: Action)
        requires
            target < entries@.len(),
        ensures
            (*final(self), r) == on_choice(*old(self), entries@, target as int),
    {
        let name = entries[target].name.clone();
        self.phase = Phase::Removing { target, name };
        Action::RemoveAlias
    }

    /// The directory was read: where it holds no candidate the tick ends with
    /// the alias untouched; otherwise one candidate is chosen at random and
    /// its publication begins.
    pub fn scanned(&mut self, entries: &Vec<EntryInfo>) -> (r: Action)
        ensures
            candidate_positions(entries@).len() == 0 ==> (*final(self), r) == on_nothing(*old(self)),
            candidate_positions(entries@).len() > 0 ==> exists|t: int|
                #![trigger candidate_positions(entries@).contains(t)]
                candidate_positions(entries@).contains(t)
                    && (*final(self), r) == on_choice(*old(self), entries@, t),
    {
        match pick_candidate(entries) {
            None => self.scan_failed(),
            Some(i) => {
                proof {
                    lemma_positions_exact(entries@);
                }
                let r = self.begin_publish(entries, i);
                assert(candidate_positions(entries@).contains(i as int));
                r
            },
        }
    }

    /// The removal of the alias was reported: on success the new alias is
    /// to be created; on failure the tick ends and the alias is as it was.
    pub fn removal_done(&mut self, ok: bool) -> (r: Action)
        ensures
            (*final(self), r) == on_removed(*old(self), ok),
    {
        match &self.phase {
            Phase::Removing { target, name } => {
                let target = *target;
                let name = name.clone();
                if ok {
                    self.phase = Phase::Linking { target, name };
                    self.alias = Alias::Absent;
                    Action::CreateLink { target }
                } else {
                    self.phase = Phase::Idle;
                    Action::Wait
                }
            },
            _ => {
                self.phase = Phase::Idle;
                Action::Wait
            },
        }
    }

    /// The creation of the alias was reported: the tick ends, with the alias
    /// resolving to the chosen photo on success and absent on failure.
    pub fn link_done(&mut self, ok: bool) -> (r: Action)
        ensures
            (*final(self), r) == on_linked(*old(self), ok),
    {
        match &self.phase {
            Phase::Linking { name, .. } => {
                if ok {
                    self.alias = Alias::Resolves(name.clone());
                } else {
                    self.alias = Alias::Absent;
                }
            },
            _ => {},
        }
        self.phase = Phase::Idle;
        Action::Wait
    }
}

/// The candidate positions are exactly the positions of the regular files
/// with a photo name, each once.
pub proof fn lemma_positions_exact(entries: Seq<EntryInfo>)
    ensures
        forall|i: int| #![trigger candidate_positions(entries).contains(i)]
            candidate_positions(entries).contains(i) <==> 0 <= i < entries.len() && is_candidate(entries[i]),
        candidate_positions(entries).no_duplicates(),
    decreases entries.len(),
{
    if entries.len() > 0 {
        let front = entries.drop_last();
        lemma_positions_exact(front);
        let fp = candidate_positions(front);
        assert forall|i: int| #![trigger candidate_positions(entries).contains(i)]
            candidate_positions(entries).contains(i) <==> 0 <= i < entries.len() && is_candidate(entries[i]) by {
            if 0 <= i < front.len() {
                assert(front[i] == entries[i]);
            }
            if candidate_positions(entries).contains(i) && i != entries.len() - 1 {
                assert(fp.contains(i));
            }
            if is_candidate(entries.last()) {
                assert(candidate_positions(entries) == fp.push(entries.len() - 1));
                if i == entries.len() - 1 {
                    assert(fp.push(entries.len() - 1)[fp.len() as int] == i);
                } else if fp.contains(i) {
                    let k = choose|k: int| 0 <= k < fp.len() && fp[k] == i;
                    assert(fp.push(entries.len() - 1)[k] == i);
                }
            }
        }
        if is_candidate(entries.last()) {
            let np = fp.push(entries.len() - 1);
            assert forall|a: int, b: int| 0 <= a < np.len() && 0 <= b < np.len() && a != b implies np[a] != np[b] by {
                if a < fp.len() {
                    assert(fp.contains(fp[a]));
                }
                if b < fp.len() {
                    assert(fp.contains(fp[b]));
                }
            }
            assert(candidate_positions(entries) == np);
        }
    }
}

/// A tick whose scan failed or found no candidate ends between ticks, asks
/// the caller to wait, and leaves the alias as it was.
pub proof fn lemma_empty_tick_keeps_alias(s: Rotator)
    ensures
        on_nothing(s).0.alias == s.alias,
        on_nothing(s).0.phase is Idle,
        on_nothing(s).1 == Action::Wait,
{
}

/// After a tick that chose a candidate and whose removal and creation of the
/// alias both succeeded, the alias resolves to the name of that candidate: a
/// regular file with a photo name from the tick's own scan.
pub proof fn lemma_successful_tick_publishes_candidate(s: Rotator, entries: Seq<EntryInfo>, t: int)
    requires
        candidate_positions(entries).contains(t),
    ensures
        ({
            let chosen = on_choice(s, entries, t);
            let removed = on_removed(chosen.0, true);
            let linked = on_linked(removed.0, true);
            &&& chosen.1 == Action::RemoveAlias
            &&& removed.1 == Action::CreateLink { target: t as usize }
            &&& linked.0.alias == Alias::Resolves(entries[t].name)
            &&& linked.0.phase is Idle
            &&& 0 <= t < entries.len()
            &&& is_candidate(entries[t])
        }),
{
    lemma_positions_exact(entries);
}

/// With a single candidate in the directory, every tick chooses that
/// candidate, so two successful ticks, from any states, publish the same name.
pub proof fn lemma_single_candidate_republished(
    s1: Rotator,
    s2: Rotator,
    entries: Seq<EntryInfo>,
    t1: int,
    t2: int,
)
    requires
        candidate_positions(entries).len() == 1,
        candidate_positions(entries).contains(t1),
        candidate_positions(entries).contains(t2),
    ensures
        t1 == t2,
        on_linked(on_removed(on_choice(s1, entries, t1).0, true).0, true).0.alias
            == on_linked(on_removed(on_choice(s2, entries, t2).0, true).0, true).0.alias,
{
}

/// When removing the old alias fails, the tick ends without creating a link,
/// and the alias is left as it was.
pub proof fn lemma_failed_removal_keeps_alias(s: Rotator)
    ensures
        on_removed(s, false).0.alias == s.alias,
        on_removed(s, false).0.phase is Idle,
        on_removed(s, false).1 == Action::Wait,
{
}

} // verus!
