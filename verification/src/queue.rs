//! The play queue of a decoded source, and its shuffled order.

use vstd::prelude::*;

verus! {

/// What is needed to undo a shuffle: the tracks in the order they had before,
/// and, for each place of the shuffled queue, the place its track came from.
#[derive(Clone, Debug, PartialEq, Eq)]
pub struct ShuffleBackup {
    pub uris: Vec<String>,
    pub places: Vec<usize>,
}

/// The queue of one decoded source. A well-formed one has a current track.
#[derive(Clone, Debug, PartialEq, Eq)]
pub struct DecodedQueue {
    /// The tracks in playing order.
    pub uris: Vec<String>,
    /// The place of the current track.
    pub index: usize,
    /// A track change is in flight: it holds a place in `uris` that it will
    /// commit to later, so the order must not change until it has.
    pub advancing: bool,
    /// Present exactly while the order is shuffled.
    pub shuffle_backup: Option<ShuffleBackup>,
    /// Random numbers for the next reordering, filled in by whoever owns the
    /// queue. Places beyond its end draw zero.
    pub draws: Vec<usize>,
}

/// A [`ShuffleBackup`] as mathematics.
#[verifier::ext_equal]
pub struct BackupView {
    pub uris: Seq<String>,
    pub places: Seq<usize>,
}

/// A [`DecodedQueue`] as mathematics.
#[verifier::ext_equal]
pub struct QueueView {
    pub uris: Seq<String>,
    pub index: usize,
    pub advancing: bool,
    pub backup: Option<BackupView>,
    pub draws: Seq<usize>,
}

impl View for ShuffleBackup {
    type V = BackupView;

    open spec fn view(&self) -> BackupView {
        BackupView { uris: self.uris@, places: self.places@ }
    }
}

/// The view of an optional backup.
pub open spec fn backup_view(backup: Option<ShuffleBackup>) -> Option<BackupView> {
    match backup {
        Some(b) => Some(b@),
        None => None,
    }
}

impl View for DecodedQueue {
    type V = QueueView;

    open spec fn view(&self) -> QueueView {
        QueueView {
            uris: self.uris@,
            index: self.index,
            advancing: self.advancing,
            backup: backup_view(self.shuffle_backup),
            draws: self.draws@,
        }
    }
}

/// The random number for place `i`.
pub open spec fn draw(draws: Seq<usize>, i: int) -> int {
    if 0 <= i < draws.len() {
        draws[i] as int
    } else {
        0
    }
}

/// `s` with the entries at `i` and `j` exchanged.
pub open spec fn swapped(s: Seq<usize>, i: int, j: int) -> Seq<usize> {
    s.update(i, s[j]).update(j, s[i])
}

/// Fisher and Yates: from place `i` downwards, exchange each place with a drawn
/// one at or below it. Place 0 takes no part.
pub open spec fn mixed(s: Seq<usize>, i: int, draws: Seq<usize>) -> Seq<usize>
    decreases i,
{
    if i <= 1 {
        s
    } else {
        mixed(swapped(s, i, 1 + draw(draws, i) % i), i - 1, draws)
    }
}

/// The places `0..n`, with `first` moved to the front.
pub open spec fn led_by(n: int, first: int) -> Seq<usize> {
    Seq::new(
        n as nat,
        |i: int|
            if i == 0 {
                first as usize
            } else if i <= first {
                (i - 1) as usize
            } else {
                i as usize
            },
    )
}

/// The places of a queue of `n` tracks in shuffled order, `first` in front.
pub open spec fn shuffled_places(n: int, first: int, draws: Seq<usize>) -> Seq<usize> {
    mixed(led_by(n, first), n - 1, draws)
}

/// `places` lists every place of a queue of `n` tracks once.
pub open spec fn is_rearrangement(places: Seq<usize>, n: int) -> bool {
    &&& places.len() == n
    &&& forall|i: int| 0 <= i < n ==> #[trigger] places[i] < n
    &&& forall|i: int, j: int|
        0 <= i < n && 0 <= j < n && i != j ==> #[trigger] places[i] != #[trigger] places[j]
}

/// The tracks of `uris` in the order that `places` gives.
pub open spec fn arranged(uris: Seq<String>, places: Seq<usize>) -> Seq<String> {
    Seq::new(places.len(), |i: int| uris[places[i] as int])
}

impl QueueView {
    /// The queue has a current track.
    pub open spec fn wf(self) -> bool {
        self.index < self.uris.len()
    }

    /// The track at the current place.
    pub open spec fn current(self) -> String {
        self.uris[self.index as int]
    }

    /// Is the order shuffled?
    pub open spec fn shuffled(self) -> bool {
        self.backup is Some
    }

    /// There is a current track, and the backup knows where it came from.
    pub open spec fn backup_holds_current(self) -> bool {
        &&& self.wf()
        &&& self.backup is Some
        &&& self.index < self.backup->0.places.len()
        &&& self.backup->0.places[self.index as int] < self.backup->0.uris.len()
        &&& self.backup->0.uris[self.backup->0.places[self.index as int] as int]@
            == self.current()@
    }

    /// The backup, if there is one, is the order that this queue was shuffled
    /// from.
    pub open spec fn backup_consistent(self) -> bool {
        match self.backup {
            Some(b) => is_rearrangement(b.places, b.uris.len() as int) && self.uris == arranged(
                b.uris,
                b.places,
            ),
            None => true,
        }
    }

    /// Shuffled: the current track leads, the others follow in drawn order.
    pub open spec fn turned_on(self) -> QueueView {
        let places = shuffled_places(self.uris.len() as int, self.index as int, self.draws);
        QueueView {
            uris: arranged(self.uris, places),
            index: 0,
            backup: Some(BackupView { uris: self.uris, places: places }),
            ..self
        }
    }

    /// Back in the order before the shuffle, on the same track. A backup that
    /// does not hold the current track is stale: it is dropped, and the queue
    /// keeps its order.
    pub open spec fn turned_off(self) -> QueueView {
        if self.backup_holds_current() {
            QueueView {
                uris: self.backup->0.uris,
                index: self.backup->0.places[self.index as int],
                backup: None,
                ..self
            }
        } else {
            QueueView { backup: None, ..self }
        }
    }

    /// The queue with its order shuffled, or not, as `on` says. A queue whose
    /// order is already so is left alone; and one without a current track, which
    /// has nothing to put in front, is not shuffled.
    pub open spec fn ordered(self, on: bool) -> QueueView {
        if self.shuffled() == on {
            self
        } else if on {
            if self.wf() {
                self.turned_on()
            } else {
                self
            }
        } else {
            self.turned_off()
        }
    }

    /// In line with `on`, unless a track change is in flight: then the order
    /// must wait.
    pub open spec fn settled(self, on: bool) -> QueueView {
        if self.advancing {
            self
        } else {
            self.ordered(on)
        }
    }
}

/// A swap of two places of a rearrangement is a rearrangement.
pub proof fn lemma_swapped(s: Seq<usize>, i: int, j: int, n: int)
    requires
        is_rearrangement(s, n),
        0 <= i < n,
        0 <= j < n,
    ensures
        is_rearrangement(swapped(s, i, j), n),
{
    let t = swapped(s, i, j);
    assert forall|a: int, b: int| 0 <= a < n && 0 <= b < n && a != b implies #[trigger] t[a]
        != #[trigger] t[b] by {
        let a0 = if a == j {
            i
        } else if a == i {
            j
        } else {
            a
        };
        let b0 = if b == j {
            i
        } else if b == i {
            j
        } else {
            b
        };
        assert(t[a] == s[a0] && t[b] == s[b0]);
    }
}

/// Mixing keeps a rearrangement one, and leaves its front alone.
proof fn lemma_mixed(s: Seq<usize>, i: int, draws: Seq<usize>, n: int)
    requires
        is_rearrangement(s, n),
        i < n,
        n > 0,
    ensures
        is_rearrangement(mixed(s, i, draws), n),
        mixed(s, i, draws)[0] == s[0],
    decreases i,
{
    if i > 1 {
        let d = draw(draws, i);
        assert(0 <= d % i < i) by (nonlinear_arith)
            requires
                i > 1,
        ;
        lemma_swapped(s, i, 1 + d % i, n);
        lemma_mixed(swapped(s, i, 1 + d % i), i - 1, draws, n);
    }
}

/// The shuffled order of a queue lists every place once, its current one first.
pub proof fn lemma_shuffled_places(n: int, first: int, draws: Seq<usize>)
    requires
        0 <= first < n <= usize::MAX,
    ensures
        is_rearrangement(shuffled_places(n, first, draws), n),
        shuffled_places(n, first, draws)[0] == first,
{
    lemma_mixed(led_by(n, first), n - 1, draws, n);
}

/// The places of a queue in shuffled order.
fn shuffled_order(n: usize, first: usize, draws: &Vec<usize>) -> (places: Vec<usize>)
    requires
        first < n,
    ensures
        places@ == shuffled_places(n as int, first as int, draws@),
{
    let mut places: Vec<usize> = Vec::new();
    let mut k: usize = 0;
    while k < n
        invariant
            k <= n,
            first < n,
            places@ == led_by(n as int, first as int).take(k as int),
        decreases n - k,
    {
        let place: usize = if k == 0 {
            first
        } else if k <= first {
            k - 1
        } else {
            k
        };
        places.push(place);
        k += 1;
    }
    assert(places@ == led_by(n as int, first as int));
    let mut i: usize = n - 1;
    while i > 1
        invariant
            i < n,
            places@.len() == n,
            mixed(places@, i as int, draws@) == shuffled_places(n as int, first as int, draws@),
        decreases i,
    {
        let d: usize = if i < draws.len() {
            draws[i]
        } else {
            0
        };
        let j: usize = 1 + d % i;
        let a: usize = places[i];
        let b: usize = places[j];
        let ghost before = places@;
        places.set(i, b);
        places.set(j, a);
        assert(places@ == swapped(before, i as int, j as int));
        i -= 1;
    }
    places
}

/// The tracks of `uris` in the order that `places` gives.
fn arrange(uris: &Vec<String>, places: &Vec<usize>) -> (r: Vec<String>)
    requires
        forall|i: int| 0 <= i < places@.len() ==> places@[i] < uris@.len(),
    ensures
        r@ == arranged(uris@, places@),
{
    let mut r: Vec<String> = Vec::new();
    let mut k: usize = 0;
    while k < places.len()
        invariant
            k <= places@.len(),
            forall|i: int| 0 <= i < places@.len() ==> places@[i] < uris@.len(),
            r@ == arranged(uris@, places@).take(k as int),
        decreases places@.len() - k,
    {
        r.push(uris[places[k]].clone());
        k += 1;
    }
    r
}

impl DecodedQueue {
    /// A queue in its own order, at rest on the track at `index`. `None` where
    /// there is no such track.
    pub fn new(uris: Vec<String>, index: usize) -> (r: Option<DecodedQueue>)
        ensures
            r is Some <==> index < uris@.len(),
            r matches Some(queue) ==> queue@.wf() && queue@ == (QueueView {
                uris: uris@,
                index,
                advancing: false,
                backup: None,
                draws: Seq::empty(),
            }),
    {
        if index < uris.len() {
            Some(
                DecodedQueue {
                    uris,
                    index,
                    advancing: false,
                    shuffle_backup: None,
                    draws: Vec::new(),
                },
            )
        } else {
            None
        }
    }

    /// Bring the queue's order in line with `on`. Turning shuffle on puts the
    /// current track in front and the others behind it in drawn order; turning
    /// it off restores the order before. The current track stays the same. A
    /// queue without one keeps its order.
    pub fn set_shuffle(&mut self, on: bool)
        ensures
            final(self)@ == old(self)@.ordered(on),
            old(self)@.wf() ==> final(self)@.wf() && final(self)@.shuffled() == on
                && final(self)@.current()@ == old(self)@.current()@,
    {
        if self.shuffle_backup.is_some() == on {
            return;
        }
        if on {
            if self.index >= self.uris.len() {
                return;
            }
            let places: Vec<usize> = shuffled_order(self.uris.len(), self.index, &self.draws);
            proof {
                lemma_shuffled_places(self.uris@.len() as int, self.index as int, self.draws@);
            }
            let mut uris: Vec<String> = arrange(&self.uris, &places);
            std::mem::swap(&mut uris, &mut self.uris);
            self.index = 0;
            self.shuffle_backup = Some(ShuffleBackup { uris: uris, places: places });
        } else {
            if let Some(backup) = self.shuffle_backup.take() {
                if self.index < self.uris.len() && self.index < backup.places.len() {
                    let place: usize = backup.places[self.index];
                    if place < backup.uris.len() && backup.uris[place] == self.uris[self.index] {
                        self.uris = backup.uris;
                        self.index = place;
                    }
                }
            }
        }
    }

    /// As [`set_shuffle`](Self::set_shuffle), unless a track change is in
    /// flight.
    pub fn settle_shuffle(&mut self, on: bool)
        ensures
            final(self)@ == old(self)@.settled(on),
            old(self)@.wf() ==> final(self)@.wf() && final(self)@.current()@
                == old(self)@.current()@,
    {
        if !self.advancing {
            self.set_shuffle(on);
        }
    }
}

} // verus!
