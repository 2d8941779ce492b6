//! Laws of the play order: what a shuffle keeps, and what turning it off
//! restores.

use crate::app::{AppView, LocalView, RemoteView};
use crate::events::Source;
use crate::queue::{BackupView, QueueView};
use vstd::prelude::*;

verus! {

/// Turning shuffle on and off again gives the queue back as it was: the same
/// tracks in the same order, on the same place.
pub proof fn shuffle_off_undoes_on(q: QueueView)
    requires
        q.wf(),
        q.uris.len() <= usize::MAX,
        !q.shuffled(),
    ensures
        q.ordered(true).ordered(false) == q,
{
    crate::queue::lemma_shuffled_places(q.uris.len() as int, q.index as int, q.draws);
    let on = q.ordered(true);
    assert(on.backup_holds_current());
    assert(on.ordered(false) == q);
}

/// Turning shuffle on puts the current track in front of a rearrangement of the
/// queue, and keeps what is needed to undo it.
pub proof fn shuffle_on_rearranges(q: QueueView)
    requires
        q.wf(),
        q.uris.len() <= usize::MAX,
        !q.shuffled(),
    ensures
        q.ordered(true).index == 0,
        q.ordered(true).current() == q.current(),
        q.ordered(true).backup == Some(
            BackupView {
                uris: q.uris,
                places: crate::queue::shuffled_places(
                    q.uris.len() as int,
                    q.index as int,
                    q.draws,
                ),
            },
        ),
        q.ordered(true).backup_consistent(),
        q.ordered(true).uris.to_multiset() =~= q.uris.to_multiset(),
{
    crate::queue::lemma_shuffled_places(q.uris.len() as int, q.index as int, q.draws);
    lemma_arranged_multiset(
        q.uris,
        crate::queue::shuffled_places(q.uris.len() as int, q.index as int, q.draws),
    );
}

/// Wherever playback has got to in a shuffled queue, turning shuffle off goes
/// back to the order before, on the track that plays.
pub proof fn shuffle_off_restores_the_order(q: QueueView)
    requires
        q.wf(),
        q.shuffled(),
        q.backup_consistent(),
    ensures
        q.ordered(false).uris == q.backup->0.uris,
        q.ordered(false).index == q.backup->0.places[q.index as int],
        q.ordered(false).current() == q.current(),
        !q.ordered(false).shuffled(),
        q.ordered(false).wf(),
{
    let b = q.backup->0;
    assert(q.uris[q.index as int] == b.uris[b.places[q.index as int] as int]);
    assert(q.backup_holds_current());
}

/// A rearrangement holds the same tracks, each as often.
proof fn lemma_arranged_multiset(uris: Seq<String>, places: Seq<usize>)
    requires
        crate::queue::is_rearrangement(places, uris.len() as int),
    ensures
        crate::queue::arranged(uris, places).to_multiset() =~= uris.to_multiset(),
    decreases uris.len(),
{
    let arranged = crate::queue::arranged(uris, places);
    if uris.len() == 0 {
        assert(arranged == uris);
    } else {
        let n = uris.len() as int;
        lemma_some_place_is_last(places, n);
        let k = choose|k: int| 0 <= k < n && #[trigger] places[k] == n - 1;
        let fewer = places.remove(k);
        assert(crate::queue::is_rearrangement(fewer, n - 1)) by {
            assert forall|i: int| 0 <= i < n - 1 implies #[trigger] fewer[i] < n - 1 by {
                let i0 = if i < k {
                    i
                } else {
                    i + 1
                };
                assert(fewer[i] == places[i0]);
                assert(places[i0] != places[k]);
            }
            assert forall|i: int, j: int|
                0 <= i < n - 1 && 0 <= j < n - 1 && i != j implies #[trigger] fewer[i]
                != #[trigger] fewer[j] by {
                let i0 = if i < k {
                    i
                } else {
                    i + 1
                };
                let j0 = if j < k {
                    j
                } else {
                    j + 1
                };
                assert(fewer[i] == places[i0] && fewer[j] == places[j0]);
            }
        }
        let front = uris.drop_last();
        lemma_arranged_multiset(front, fewer);
        assert(crate::queue::arranged(front, fewer) == arranged.remove(k)) by {
            assert forall|i: int| 0 <= i < n - 1 implies crate::queue::arranged(front, fewer)[i]
                == #[trigger] arranged.remove(k)[i] by {
                assert(fewer[i] < n - 1);
            }
        }
        broadcast use vstd::seq_lib::group_to_multiset_ensures;

        assert(uris == front.push(uris.last()));
        assert(arranged[k] == uris.last());
        assert(arranged.remove(k).to_multiset() == arranged.to_multiset().remove(arranged[k]));
        assert(arranged.to_multiset().count(arranged[k]) > 0) by {
            assert(arranged.contains(arranged[k]));
        }
    }
}

/// The places of a rearrangement, as numbers.
spec fn place_set(places: Seq<usize>) -> Set<int> {
    places.map_values(|p: usize| p as int).to_set()
}

/// A list of every place has each of them.
proof fn lemma_every_place_occurs(places: Seq<usize>, n: int, place: int)
    requires
        crate::queue::is_rearrangement(places, n),
        0 <= place < n,
    ensures
        exists|k: int| 0 <= k < n && #[trigger] places[k] == place,
{
    let wide = places.map_values(|p: usize| p as int);
    assert(wide.no_duplicates());
    wide.unique_seq_to_set();
    let all = vstd::set_lib::set_int_range(0, n);
    vstd::set_lib::lemma_int_range(0, n);
    assert(place_set(places).subset_of(all)) by {
        assert forall|x: int| place_set(places).contains(x) implies all.contains(x) by {
            let i = choose|i: int| 0 <= i < wide.len() && wide[i] == x;
            assert(places[i] < n);
        }
    }
    vstd::set_lib::lemma_subset_equality(place_set(places), all);
    assert(place_set(places).contains(place));
    let i = choose|i: int| 0 <= i < wide.len() && wide[i] == place;
    assert(places[i] == place);
}

/// A list of every place has the last one.
proof fn lemma_some_place_is_last(places: Seq<usize>, n: int)
    requires
        crate::queue::is_rearrangement(places, n),
        n > 0,
    ensures
        exists|k: int| 0 <= k < n && #[trigger] places[k] == n - 1,
{
    lemma_every_place_occurs(places, n, n - 1);
}

/// Mixing from a place downwards looks at the draws up to that place only.
proof fn lemma_mixed_draws(s: Seq<usize>, i: int, a: Seq<usize>, b: Seq<usize>)
    requires
        forall|k: int| 0 <= k <= i ==> #[trigger] crate::queue::draw(a, k) == crate::queue::draw(
            b,
            k,
        ),
    ensures
        crate::queue::mixed(s, i, a) == crate::queue::mixed(s, i, b),
    decreases i,
{
    if i > 1 {
        assert(crate::queue::draw(a, i) == crate::queue::draw(b, i));
        let j = 1 + crate::queue::draw(a, i) % i;
        lemma_mixed_draws(crate::queue::swapped(s, i, j), i - 1, a, b);
    }
}

/// Two lists of every place that agree but at one place agree there too.
proof fn lemma_last_difference(s: Seq<usize>, t: Seq<usize>, n: int)
    requires
        crate::queue::is_rearrangement(s, n),
        crate::queue::is_rearrangement(t, n),
        forall|k: int| 0 <= k < n && k != 1 ==> #[trigger] s[k] == t[k],
    ensures
        s == t,
{
    if n > 1 {
        lemma_every_place_occurs(s, n, t[1] as int);
        let k = choose|k: int| 0 <= k < n && #[trigger] s[k] == t[1] as int;
        if k != 1 {
            assert(s[k] == t[k]);
            assert(t[k] != t[1]);
        }
    }
    assert(s =~= t);
}

/// Mixing can be drawn to give any arrangement that keeps the front, and what
/// lies beyond the place it starts from.
proof fn lemma_mixing_reaches(s: Seq<usize>, t: Seq<usize>, i: int, n: int) -> (draws: Seq<usize>)
    requires
        crate::queue::is_rearrangement(s, n),
        crate::queue::is_rearrangement(t, n),
        0 < n <= usize::MAX,
        i < n,
        s[0] == t[0],
        forall|k: int| 0 <= k < n && k > i && k != 1 ==> #[trigger] s[k] == t[k],
    ensures
        crate::queue::mixed(s, i, draws) == t,
        draws.len() == if i > 1 {
            i + 1
        } else {
            0
        },
    decreases i,
{
    if i <= 1 {
        lemma_last_difference(s, t, n);
        Seq::empty()
    } else {
        lemma_every_place_occurs(s, n, t[i] as int);
        let j = choose|j: int| 0 <= j < n && #[trigger] s[j] == t[i] as int;
        assert(t[0] != t[i]);
        assert(1 <= j <= i) by {
            if j > i {
                assert(s[j] == t[j]);
                assert(t[j] != t[i]);
            }
        }
        let next = crate::queue::swapped(s, i, j);
        crate::queue::lemma_swapped(s, i, j, n);
        let fewer = lemma_mixing_reaches(next, t, i - 1, n);
        let draws = Seq::new(
            (i + 1) as nat,
            |k: int|
                if k == i {
                    (j - 1) as usize
                } else if k < fewer.len() {
                    fewer[k]
                } else {
                    0
                },
        );
        assert((j - 1) % i == j - 1) by (nonlinear_arith)
            requires
                0 <= j - 1 < i,
        ;
        assert(crate::queue::draw(draws, i) == j - 1);
        assert forall|k: int| 0 <= k <= i - 1 implies #[trigger] crate::queue::draw(draws, k)
            == crate::queue::draw(fewer, k) by {
            assert(draws[k] == if k < fewer.len() {
                fewer[k]
            } else {
                0
            });
        }
        lemma_mixed_draws(next, i - 1, draws, fewer);
        draws
    }
}

/// Every order that has the current track in front can come out of a shuffle:
/// there are random numbers that give it.
pub proof fn every_order_can_be_drawn(q: QueueView, places: Seq<usize>)
    requires
        q.wf(),
        q.uris.len() <= usize::MAX,
        !q.shuffled(),
        crate::queue::is_rearrangement(places, q.uris.len() as int),
        places[0] == q.index,
    ensures
        exists|draws: Seq<usize>| (#[trigger] (QueueView { draws, ..q }).ordered(true)).uris
            == crate::queue::arranged(q.uris, places),
{
    let n = q.uris.len() as int;
    let led = crate::queue::led_by(n, q.index as int);
    assert(crate::queue::is_rearrangement(led, n));
    let draws = lemma_mixing_reaches(led, places, n - 1, n);
    assert((QueueView { draws, ..q }).ordered(true).uris == crate::queue::arranged(
        q.uris,
        places,
    ));
}

/// A backup that does not lead back to the current track is stale: turning
/// shuffle off drops it, and the queue keeps its order and its place. So does a
/// queue without a current track, which is not shuffled either.
pub proof fn stale_backups_are_dropped(q: QueueView)
    requires
        q.shuffled(),
        !q.wf() || ({
            let b = q.backup->0;
            ||| q.index >= b.places.len()
            ||| b.places[q.index as int] >= b.uris.len()
            ||| b.uris[b.places[q.index as int] as int]@ != q.uris[q.index as int]@
        }),
    ensures
        q.ordered(false) == (QueueView { backup: None, ..q }),
{
}

/// A queue is left as it is where its order is already as asked for, where a
/// track change is in flight, and where there is no track to put in front.
pub proof fn some_queues_are_left_as_they_are(q: QueueView, on: bool)
    ensures
        (q.backup is Some <==> on) ==> q.ordered(on) == q,
        q.advancing ==> q.settled(on) == q,
        !q.advancing ==> q.settled(on) == q.ordered(on),
        q.index >= q.uris.len() && q.backup is None ==> q.ordered(true) == q,
        q.ordered(on).advancing == q.advancing,
        q.ordered(on).draws == q.draws,
        q.wf() <==> q.index < q.uris.len(),
        q.shuffled() <==> q.backup is Some,
{
}

/// The queue of a source's session.
pub open spec fn queue_of(app: AppView, source: Source) -> Option<QueueView> {
    match source {
        Source::Local => match app.local {
            Some(s) => Some(s.queue),
            None => None,
        },
        Source::Subsonic => remote_queue(app.subsonic),
        Source::YouTube => remote_queue(app.youtube),
        Source::Qobuz => remote_queue(app.qobuz),
        Source::Spotify | Source::Radio => None,
    }
}

/// The queue of a remote session.
pub open spec fn remote_queue(session: Option<RemoteView>) -> Option<QueueView> {
    match session {
        Some(s) => Some(s.queue),
        None => None,
    }
}

/// With the queue of a source's session replaced.
pub open spec fn with_queue(app: AppView, source: Source, queue: QueueView) -> AppView {
    match source {
        Source::Local => AppView {
            local: Some(LocalView { queue, ..app.local->0 }),
            ..app
        },
        Source::Subsonic => AppView {
            subsonic: Some(RemoteView { queue, ..app.subsonic->0 }),
            ..app
        },
        Source::YouTube => AppView {
            youtube: Some(RemoteView { queue, ..app.youtube->0 }),
            ..app
        },
        Source::Qobuz => AppView { qobuz: Some(RemoteView { queue, ..app.qobuz->0 }), ..app },
        Source::Spotify | Source::Radio => app,
    }
}

/// Does the queue of this source follow the decoded shuffle flag? A local
/// session comes before a Subsonic one, and either before the others.
pub open spec fn follows(app: AppView, source: Source) -> bool {
    match source {
        Source::Local => app.local is Some,
        Source::Subsonic => app.local is None && app.subsonic is Some,
        Source::YouTube => app.local is None && app.subsonic is None && app.youtube is Some,
        Source::Qobuz => app.local is None && app.subsonic is None && app.qobuz is Some,
        Source::Spotify | Source::Radio => false,
    }
}

/// No queue is longer than memory holds.
pub open spec fn fits(app: AppView) -> bool {
    forall|source: Source|
        (#[trigger] queue_of(app, source)) matches Some(q) ==> q.uris.len() <= usize::MAX
}

/// Settling the order keeps a queue's current track, and that it has one.
proof fn lemma_settled(q: QueueView, on: bool)
    requires
        q.wf(),
        q.uris.len() <= usize::MAX,
    ensures
        q.settled(on).wf(),
        q.settled(on).current()@ == q.current()@,
{
    if !q.advancing && on && !q.shuffled() {
        crate::queue::lemma_shuffled_places(q.uris.len() as int, q.index as int, q.draws);
    }
}

/// Bringing the order in line with the flag keeps every session on the track
/// that it plays, so the audio goes on.
pub proof fn reordering_keeps_the_track(app: AppView, source: Source)
    requires
        app.wf(),
        fits(app),
        queue_of(app, source) is Some,
    ensures
        queue_of(app.order_synced(), source) is Some,
        queue_of(app.order_synced(), source)->0.current()@ == queue_of(app, source)->0.current()@,
{
    lemma_settled(queue_of(app, source)->0, app.decoded_shuffle);
}

/// The shuffle key, and a shuffle request from a media controller, keep every
/// session on the track that it plays.
pub proof fn shuffling_keeps_the_track(app: AppView, source: Source, on: bool)
    requires
        app.wf(),
        fits(app),
        queue_of(app, source) is Some,
    ensures
        queue_of(app.shuffle_toggled(), source)->0.current()@ == queue_of(
            app,
            source,
        )->0.current()@,
        queue_of(app.decoded_shuffle_set(on), source)->0.current()@ == queue_of(
            app,
            source,
        )->0.current()@,
{
    let flipped = AppView { decoded_shuffle: !app.decoded_shuffle, ..app };
    lemma_same_queues(app, flipped);
    reordering_keeps_the_track(flipped, source);
}

/// Sessions alone decide which queues there are.
pub proof fn lemma_same_queues(a: AppView, b: AppView)
    requires
        fits(a),
        b.local == a.local,
        b.subsonic == a.subsonic,
        b.youtube == a.youtube,
        b.qobuz == a.qobuz,
    ensures
        fits(b),
{
    assert forall|source: Source|
        (#[trigger] queue_of(b, source)) matches Some(q) ==> q.uris.len() <= usize::MAX by {
        assert(queue_of(b, source) == queue_of(a, source));
    }
}

/// Bringing the order in line keeps every session's current track valid.
pub proof fn lemma_synced_wf(app: AppView)
    requires
        app.wf(),
        fits(app),
    ensures
        app.order_synced().wf(),
{
    assert forall|source: Source| (#[trigger] queue_of(app, source)) matches Some(q) ==> q.settled(
        app.decoded_shuffle,
    ).wf() by {
        if let Some(q) = queue_of(app, source) {
            lemma_settled(q, app.decoded_shuffle);
        }
    }
    assert(queue_of(app, Source::Local) is Some <==> app.local is Some);
    assert(queue_of(app, Source::Subsonic) is Some <==> app.subsonic is Some);
    assert(queue_of(app, Source::YouTube) is Some <==> app.youtube is Some);
    assert(queue_of(app, Source::Qobuz) is Some <==> app.qobuz is Some);
}

/// Bringing the order in line a second time changes nothing, so every tick may
/// do it.
pub proof fn reconciling_twice_is_reconciling_once(app: AppView)
    ensures
        app.reconciled().reconciled() == app.reconciled(),
{
    assert(forall|q: QueueView, on: bool| #[trigger]
        q.settled(on).settled(on) == q.settled(on));
}

/// Where every queue that follows the flag already matches it, there is nothing
/// to reconcile.
pub proof fn reconciling_a_match_is_nothing(app: AppView)
    requires
        forall|source: Source| #[trigger]
            follows(app, source) ==> queue_of(app, source)->0.shuffled() == app.decoded_shuffle,
    ensures
        app.reconciled() == app,
{
    assert(follows(app, Source::Local) || app.local is None);
    assert(follows(app, Source::Subsonic) || app.local is Some || app.subsonic is None);
    assert(follows(app, Source::YouTube) || app.local is Some || app.subsonic is Some
        || app.youtube is None);
    assert(follows(app, Source::Qobuz) || app.local is Some || app.subsonic is Some
        || app.qobuz is None);
}

/// A shuffle request that comes while a track change is in flight leaves the
/// order alone, so that the change commits to the track it was aimed at. Once it
/// has committed, reconciling gives the order that was asked for.
pub proof fn deferred_shuffle_lands(
    app: AppView,
    source: Source,
    on: bool,
    committed: QueueView,
)
    requires
        app.queueable(),
        follows(app, source),
        app.decoded_shuffle != on,
        queue_of(app, source)->0.advancing,
        !committed.advancing,
    ensures
        ({
            let asked = app.decoded_shuffle_set(on);
            let landed = with_queue(asked, source, committed).reconciled();
            &&& asked.decoded_shuffle == on
            &&& queue_of(asked, source) == queue_of(app, source)
            &&& queue_of(landed, source) == Some(committed.ordered(on))
        }),
{
}

/// While the native queue owns playback, a session is a suspended context: its
/// order is not touched, and neither mode is.
pub proof fn suspended_contexts_are_left_alone(
    app: AppView,
    on: bool,
    mode: crate::repeat::RepeatMode,
)
    requires
        app.queue_owns(),
    ensures
        app.reconciled() == app,
        app.decoded_shuffle_set(on) == app,
        app.decoded_repeat_set(mode) == app,
{
}

/// A restored session whose saved flag and saved order disagree, because a
/// toggle was still deferred at exit, is in line after the next tick.
pub proof fn restored_order_follows_the_flag(app: AppView, resume: crate::restore::Resume)
    requires
        app.wf(),
        !app.queue_owns(),
        resume is Queue,
        follows(app, resume->source),
        !queue_of(app, resume->source)->0.advancing,
    ensures
        app.resumed(resume).decoded_shuffle == resume->shuffle_on,
        app.resumed(resume).decoded_repeat == resume->repeat,
        queue_of(app.resumed(resume).reconciled(), resume->source) is Some,
        queue_of(app.resumed(resume).reconciled(), resume->source)->0.shuffled()
            == resume->shuffle_on,
{
}

} // verus!
