use vstd::prelude::*;

use std::collections::HashMap;

use crate::messages::RouteNote;

verus! {

broadcast use vstd::std_specs::hash::group_hash_axioms;

/// Whether a note was left at latitude `lat`.
pub open spec fn left_at(note: RouteNote, lat: i32) -> bool {
    note.location matches Some(p) && p.latitude == lat
}

/// The notes of `log` left at latitude `lat`, in the order they came.
pub open spec fn notes_at(log: Seq<RouteNote>, lat: i32) -> Seq<RouteNote>
    decreases log.len(),
{
    if log.len() == 0 {
        Seq::empty()
    } else {
        let rest = notes_at(log.drop_last(), lat);
        if left_at(log.last(), lat) {
            rest.push(log.last())
        } else {
            rest
        }
    }
}

/// The notes filed at a latitude were all left there, and there are never
/// more of them than notes received.
pub proof fn lemma_notes_at_only_that_latitude(log: Seq<RouteNote>, lat: i32)
    ensures
        notes_at(log, lat).len() <= log.len(),
        forall|k: int|
            0 <= k < notes_at(log, lat).len() ==> left_at(#[trigger] notes_at(log, lat)[k], lat),
    decreases log.len(),
{
    if log.len() > 0 {
        lemma_notes_at_only_that_latitude(log.drop_last(), lat);
        assert forall|k: int|
            0 <= k < notes_at(log, lat).len() implies left_at(
            #[trigger] notes_at(log, lat)[k],
            lat,
        ) by {
            if k < notes_at(log.drop_last(), lat).len() {
                assert(notes_at(log, lat)[k] == notes_at(log.drop_last(), lat)[k]);
            }
        }
    }
}

/// The notes filed at a latitude are exactly the notes of the log left
/// there, in the order they came: the log filtered by latitude.
pub proof fn lemma_notes_at_is_filter(log: Seq<RouteNote>, lat: i32)
    ensures
        notes_at(log, lat) == log.filter(|n: RouteNote| left_at(n, lat)),
    decreases log.len(),
{
    reveal(Seq::filter);
    if log.len() > 0 {
        lemma_notes_at_is_filter(log.drop_last(), lat);
    }
}

/// A note at a latitude extends that latitude's history by itself and
/// leaves every other latitude's history as it was.
pub proof fn lemma_notes_at_push(log: Seq<RouteNote>, note: RouteNote, lat: i32)
    ensures
        left_at(note, lat) ==> notes_at(log.push(note), lat) == notes_at(log, lat).push(note),
        !left_at(note, lat) ==> notes_at(log.push(note), lat) == notes_at(log, lat),
{
    lemma_notes_at_is_filter(log, lat);
    lemma_notes_at_is_filter(log.push(note), lat);
    reveal(Seq::filter);
    assert(log.push(note).drop_last() =~= log);
}

/// Every note of the log left at a latitude is in that latitude's history,
/// and the history is as long as the number of such notes.
pub proof fn lemma_notes_at_complete(log: Seq<RouteNote>, lat: i32)
    ensures
        forall|i: int|
            0 <= i < log.len() && left_at(log[i], lat) ==> notes_at(log, lat).contains(
                #[trigger] log[i],
            ),
        notes_at(log, lat).len() == log.filter(|n: RouteNote| left_at(n, lat)).len(),
{
    lemma_notes_at_is_filter(log, lat);
    let pred = |n: RouteNote| left_at(n, lat);
    assert forall|i: int| 0 <= i < log.len() && left_at(log[i], lat) implies notes_at(
        log,
        lat,
    ).contains(#[trigger] log[i]) by {
        log.lemma_filter_contains(pred, i);
    }
}

/// The server's side of a route chat: every note received so far, filed by
/// the latitude it was left at.
pub struct RouteChat {
    notes: HashMap<i32, Vec<RouteNote>>,
    log: Ghost<Seq<RouteNote>>,
}

impl RouteChat {
    #[verifier::type_invariant]
    spec fn filed_by_latitude(self) -> bool {
        forall|lat: i32|
            #[trigger] notes_at(self.log@, lat) == if self.notes@.contains_key(lat) {
                self.notes@[lat]@
            } else {
                Seq::<RouteNote>::empty()
            }
    }

    /// Every note received so far, in the order it came.
    pub closed spec fn log(&self) -> Seq<RouteNote> {
        self.log@
    }

    /// A chat in which no note has been received.
    pub fn new() -> (res: Self)
        ensures
            res.log() == Seq::<RouteNote>::empty(),
    {
        RouteChat { notes: HashMap::new(), log: Ghost(Seq::empty()) }
    }

    /// Takes in a note and answers with every note received so far at its
    /// latitude, this one last, in the order they came.
    pub fn receive(&mut self, note: RouteNote) -> (res: Vec<RouteNote>)
        requires
            note.location is Some,
        ensures
            final(self).log() == old(self).log().push(note),
            res@ == notes_at(final(self).log(), note.location->0.latitude),
            res@ == final(self).log().filter(
                |n: RouteNote| left_at(n, note.location->0.latitude),
            ),
            res@ == notes_at(old(self).log(), note.location->0.latitude).push(note),
    {
        let lat: i32 = note.location.unwrap().latitude;
        let ghost new_note = note;
        let mut chat = RouteChat::new();
        std::mem::swap(self, &mut chat);
        proof {
            use_type_invariant(&chat);
        }
        let RouteChat { mut notes, log } = chat;
        let ghost new_log = log@.push(new_note);
        let mut here = match notes.remove(&lat) {
            Some(v) => v,
            None => Vec::new(),
        };
        assert(here@ == notes_at(log@, lat));
        here.push(note);
        assert(new_log.drop_last() =~= log@);
        assert(here@ == notes_at(new_log, lat));
        let n: usize = here.len();
        let mut res: Vec<RouteNote> = Vec::new();
        for i in 0..n
            invariant
                n == here@.len(),
                res@ == here@.take(i as int),
        {
            res.push(here[i].clone());
            assert(here@.take(i + 1) =~= here@.take(i as int).push(here@[i as int]));
        }
        assert(here@.take(n as int) =~= here@);
        notes.insert(lat, here);
        assert forall|l: i32|
            #[trigger] notes_at(new_log, l) == if notes@.contains_key(l) {
                notes@[l]@
            } else {
                Seq::<RouteNote>::empty()
            } by {
            assert(new_log.drop_last() =~= log@);
            if l != lat {
                assert(notes_at(log@, l) == notes_at(new_log, l));
            }
        }
        proof {
            lemma_notes_at_is_filter(new_log, lat);
            lemma_notes_at_push(log@, new_note, lat);
        }
        *self = RouteChat { notes, log: Ghost(new_log) };
        res
    }
}

} // verus!
