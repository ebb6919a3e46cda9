//! Edge detection on polled keyboard state.
use vstd::prelude::*;

verus! {

/// The keys that went down since the previous snapshot.
pub open spec fn pressed_of(prev: Set<u64>, cur: Set<u64>) -> Set<u64> {
    cur.difference(prev)
}

/// The keys that came up since the previous snapshot.
pub open spec fn released_of(prev: Set<u64>, cur: Set<u64>) -> Set<u64> {
    prev.difference(cur)
}

/// The keys that are down in both snapshots.
pub open spec fn held_of(prev: Set<u64>, cur: Set<u64>) -> Set<u64> {
    prev.intersect(cur)
}

/// Every key seen in either snapshot is pressed, released or held, and no key
/// is both pressed and released.
pub proof fn lemma_delta_partition(prev: Set<u64>, cur: Set<u64>)
    ensures
        pressed_of(prev, cur).intersect(released_of(prev, cur)) == Set::<u64>::empty(),
        pressed_of(prev, cur).intersect(held_of(prev, cur)) == Set::<u64>::empty(),
        released_of(prev, cur).intersect(held_of(prev, cur)) == Set::<u64>::empty(),
        pressed_of(prev, cur).union(released_of(prev, cur)).union(held_of(prev, cur))
            == prev.union(cur),
{
    assert(pressed_of(prev, cur).intersect(released_of(prev, cur)) =~= Set::<u64>::empty());
    assert(pressed_of(prev, cur).intersect(held_of(prev, cur)) =~= Set::<u64>::empty());
    assert(released_of(prev, cur).intersect(held_of(prev, cur)) =~= Set::<u64>::empty());
    assert(pressed_of(prev, cur).union(released_of(prev, cur)).union(held_of(prev, cur))
        =~= prev.union(cur));
}

/// Whether `k` occurs in `keys`.
pub fn contains_key(keys: &Vec<u64>, k: u64) -> (r: bool)
    ensures
        r == keys@.contains(k),
{
    let mut i: usize = 0;
    while i < keys.len()
        invariant
            i <= keys@.len(),
            forall|j: int| 0 <= j < i ==> keys@[j] != k,
        decreases keys@.len() - i,
    {
        if keys[i] == k {
            return true;
        }
        i = i + 1;
    }
    false
}

/// The elements of `a` that `b` does not hold, each once.
fn difference(a: &Vec<u64>, b: &Vec<u64>) -> (r: Vec<u64>)
    ensures
        r@.to_set() == a@.to_set().difference(b@.to_set()),
        r@.no_duplicates(),
{
    let mut r: Vec<u64> = Vec::new();
    let mut i: usize = 0;
    while i < a.len()
        invariant
            i <= a@.len(),
            r@.to_set() == a@.subrange(0, i as int).to_set().difference(b@.to_set()),
            r@.no_duplicates(),
        decreases a@.len() - i,
    {
        let k = a[i];
        proof {
            assert(a@.subrange(0, i + 1) =~= a@.subrange(0, i as int).push(k));
            a@.subrange(0, i as int).lemma_push_to_set_commute(k);
        }
        if !contains_key(b, k) && !contains_key(&r, k) {
            proof {
                r@.lemma_push_to_set_commute(k);
            }
            r.push(k);
        }
        i = i + 1;
    }
    assert(a@.subrange(0, a@.len() as int) =~= a@);
    r
}

/// The elements that occur in both `a` and `b`, each once.
fn intersection(a: &Vec<u64>, b: &Vec<u64>) -> (r: Vec<u64>)
    ensures
        r@.to_set() == a@.to_set().intersect(b@.to_set()),
        r@.no_duplicates(),
{
    let mut r: Vec<u64> = Vec::new();
    let mut i: usize = 0;
    while i < a.len()
        invariant
            i <= a@.len(),
            r@.to_set() == a@.subrange(0, i as int).to_set().intersect(b@.to_set()),
            r@.no_duplicates(),
        decreases a@.len() - i,
    {
        let k = a[i];
        proof {
            assert(a@.subrange(0, i + 1) =~= a@.subrange(0, i as int).push(k));
            a@.subrange(0, i as int).lemma_push_to_set_commute(k);
        }
        if contains_key(b, k) && !contains_key(&r, k) {
            proof {
                r@.lemma_push_to_set_commute(k);
            }
            r.push(k);
        }
        i = i + 1;
    }
    assert(a@.subrange(0, a@.len() as int) =~= a@);
    r
}

/// What changed between two consecutive snapshots of the keys held down.
/// The three lists are disjoint and hold no key twice.
pub struct KeyDelta {
    /// Keys down now that were not down before.
    pub pressed: Vec<u64>,
    /// Keys down before that are not down now.
    pub released: Vec<u64>,
    /// Keys down in both snapshots.
    pub held: Vec<u64>,
}

impl KeyDelta {
    /// The delta of a first frame with nothing down.
    pub fn empty() -> (r: KeyDelta)
        ensures
            r.pressed@ == Seq::<u64>::empty(),
            r.released@ == Seq::<u64>::empty(),
            r.held@ == Seq::<u64>::empty(),
    {
        KeyDelta { pressed: Vec::new(), released: Vec::new(), held: Vec::new() }
    }

    /// Whether `k` went down in this frame.
    pub fn is_pressed(&self, k: u64) -> (r: bool)
        ensures
            r == self.pressed@.contains(k),
    {
        contains_key(&self.pressed, k)
    }

    /// Whether `k` came up in this frame.
    pub fn is_released(&self, k: u64) -> (r: bool)
        ensures
            r == self.released@.contains(k),
    {
        contains_key(&self.released, k)
    }
}

/// Remembers the previous snapshot of the keys held down, so that each new
/// snapshot can be turned into presses and releases.
pub struct KeyTracker {
    down: Vec<u64>,
}

impl View for KeyTracker {
    type V = Set<u64>;

    /// The keys held down at the last snapshot.
    closed spec fn view(&self) -> Set<u64> {
        self.down@.to_set()
    }
}

impl KeyTracker {
    /// A tracker that has seen no key down.
    pub fn new() -> (r: KeyTracker)
        ensures
            r@ == Set::<u64>::empty(),
    {
        let r = KeyTracker { down: Vec::new() };
        assert(r.down@.to_set() =~= Set::<u64>::empty());
        r
    }

    /// Whether `k` was down at the last snapshot.
    pub fn is_down(&self, k: u64) -> (r: bool)
        ensures
            r == self@.contains(k),
    {
        let r = contains_key(&self.down, k);
        proof {
            if r {
                assert(self.down@.to_set().contains(k));
            }
        }
        r
    }

    /// Takes the snapshot of this frame, which replaces the previous one, and
    /// returns what changed since that one.
    pub fn update(&mut self, current_down: Vec<u64>) -> (r: KeyDelta)
        ensures
            final(self)@ == current_down@.to_set(),
            r.pressed@.to_set() == pressed_of(old(self)@, current_down@.to_set()),
            r.released@.to_set() == released_of(old(self)@, current_down@.to_set()),
            r.held@.to_set() == held_of(old(self)@, current_down@.to_set()),
            r.pressed@.no_duplicates(),
            r.released@.no_duplicates(),
            r.held@.no_duplicates(),
    {
        let pressed = difference(&current_down, &self.down);
        let released = difference(&self.down, &current_down);
        let held = intersection(&self.down, &current_down);
        self.down = current_down;
        KeyDelta { pressed, released, held }
    }
}

} // verus!
