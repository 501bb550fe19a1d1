use vstd::prelude::*;
use vstd::multiset::Multiset;
use crate::piece::{Piece, spawned, name_of};
use rand::seq::SliceRandom;

verus! {

/// Pieces per bag: one of each type.
pub const BAG_SIZE: usize = 7;

/// Relies on rand's `SliceRandom::shuffle`, fed by `thread_rng`: it only swaps items of the
/// slice (a Fisher-Yates pass), so the result holds the same items, each as often.
#[verifier::external_body]
fn shuffled(items: Vec<u8>) -> (r: Vec<u8>)
    ensures
        r@.to_multiset() == items@.to_multiset(),
{
    let mut items = items;
    items.shuffle(&mut rand::thread_rng());
    items
}

/// Each of the seven type ids once.
pub open spec fn full_bag() -> Multiset<u8> {
    Multiset::empty().insert(1u8).insert(2u8).insert(3u8).insert(4u8).insert(5u8).insert(
        6u8,
    ).insert(7u8)
}

/// `s` is some order of the seven type ids.
pub open spec fn is_bag(s: Seq<u8>) -> bool {
    s.to_multiset() == full_bag()
}

/// The `k`-th group of seven in `s`.
pub open spec fn bag_at(s: Seq<u8>, k: int) -> Seq<u8> {
    s.subrange(BAG_SIZE * k, BAG_SIZE * k + BAG_SIZE)
}

/// `s` is a run of complete bags.
pub open spec fn whole_bags(s: Seq<u8>) -> bool {
    &&& s.len() % (BAG_SIZE as nat) == 0
    &&& forall|k: int| 0 <= k < s.len() / (BAG_SIZE as nat) ==> #[trigger] is_bag(bag_at(s, k))
}

pub open spec fn ids(s: Seq<Piece>) -> Seq<u8> {
    s.map_values(|p: Piece| p.id)
}

/// Every piece is a fresh piece of one of the seven types.
pub open spec fn all_spawned(s: Seq<Piece>) -> bool {
    forall|i: int| 0 <= i < s.len() ==> #[trigger] s[i] == spawned(s[i].id) && 1 <= s[i].id <= 7
}

proof fn lemma_bag_facts(s: Seq<u8>)
    requires
        is_bag(s),
    ensures
        s.len() == BAG_SIZE,
        forall|i: int| 0 <= i < s.len() ==> 1 <= #[trigger] s[i] <= 7,
        forall|id: u8| 1 <= id <= 7 ==> #[trigger] s.to_multiset().count(id) == 1,
{
    broadcast use vstd::seq_lib::group_to_multiset_ensures;
    broadcast use vstd::multiset::group_multiset_axioms;

    assert(full_bag().len() == 7);
    assert forall|i: int| 0 <= i < s.len() implies 1 <= #[trigger] s[i] <= 7 by {
        assert(s.contains(s[i]));
        assert(full_bag().count(s[i]) > 0);
    }
}

proof fn lemma_append_bag(s: Seq<u8>, b: Seq<u8>)
    requires
        whole_bags(s),
        is_bag(b),
    ensures
        whole_bags(s + b),
{
    lemma_bag_facts(b);
    let t = s + b;
    let m = s.len() / (BAG_SIZE as nat);
    assert(t.len() == BAG_SIZE * (m + 1));
    assert forall|k: int| 0 <= k < t.len() / (BAG_SIZE as nat) implies #[trigger] is_bag(bag_at(t, k)) by {
        if k < m {
            assert(bag_at(t, k) =~= bag_at(s, k));
        } else {
            assert(bag_at(t, k) =~= b);
        }
    }
}

fn piece_ids() -> (r: Vec<u8>)
    ensures
        is_bag(r@),
{
    let r: Vec<u8> = vec![1, 2, 3, 4, 5, 6, 7];
    proof {
        broadcast use vstd::seq_lib::group_to_multiset_ensures;

        let e = Seq::<u8>::empty();
        assert(e.to_multiset() =~= Multiset::empty());
        assert(r@ =~= e.push(1).push(2).push(3).push(4).push(5).push(6).push(7));
    }
    r
}

fn push_bag(target: &mut Vec<Piece>, bag: &Vec<u8>)
    requires
        all_spawned(old(target)@),
        is_bag(bag@),
    ensures
        all_spawned(final(target)@),
        ids(final(target)@) == ids(old(target)@) + bag@,
        final(target)@.len() == old(target)@.len() + bag@.len(),
{
    proof {
        lemma_bag_facts(bag@);
    }
    let mut i: usize = 0;
    while i < bag.len()
        invariant
            i <= bag@.len(),
            forall|k: int| 0 <= k < bag@.len() ==> 1 <= #[trigger] bag@[k] <= 7,
            all_spawned(target@),
            ids(target@) == ids(old(target)@) + bag@.subrange(0, i as int),
            target@.len() == old(target)@.len() + i,
        decreases bag@.len() - i,
    {
        let p = Piece::with_id(bag[i]);
        let ghost prev = target@;
        target.push(p);
        assert(target@ == prev.push(p));
        assert(ids(prev.push(p)) =~= ids(prev).push(p.id));
        assert(ids(target@) =~= ids(old(target)@) + bag@.subrange(0, i + 1));
        i += 1;
    }
    assert(bag@.subrange(0, i as int) =~= bag@);
}

/// What one call of `get_next_piece` does, taking `q0` to `q1` and serving `p`: the front
/// of the buffer is served, the buffer loses it and gains the front of the next bag (a
/// fresh shuffled bag when that one is used up), and `drawn` records the id.
pub open spec fn next_step(q0: Queue, q1: Queue, p: Piece) -> bool {
    &&& p == spawned(p.id)
    &&& 1 <= p.id <= 7
    &&& q1.drawn@ == q0.drawn@.push(p.id)
    &&& q0.pieces@.len() > 0 ==> p == q0.pieces@[0]
    &&& q0.pieces@.len() > 0 ==> q1.pieces@.len() == q0.pieces@.len()
    &&& q0.pieces@.len() == 0 ==> q1.pieces@.len() == BAG_SIZE
    &&& q0.pieces@.len() > 0 && q0.next_pieces@.len() > 0 ==> {
        &&& q1.pieces@ == q0.pieces@.drop_first().push(q0.next_pieces@[0])
        &&& q1.next_pieces@ == q0.next_pieces@.drop_first()
    }
    &&& q0.pieces@.len() > 0 && q0.next_pieces@.len() == 0 ==> {
        &&& q1.pieces@.drop_last() == q0.pieces@.drop_first()
        &&& is_bag(ids(seq![q1.pieces@.last()] + q1.next_pieces@))
    }
}

/// The upcoming pieces: `pieces` is served from the front and kept topped up from
/// `next_pieces`, which is refilled a whole shuffled bag at a time. `drawn` records the ids
/// served so far.
pub struct Queue {
    pub pieces: Vec<Piece>,
    pub next_pieces: Vec<Piece>,
    pub drawn: Ghost<Seq<u8>>,
}

impl Queue {
    /// Everything served and still to serve, in order.
    pub open spec fn stream(&self) -> Seq<u8> {
        self.drawn@ + ids(self.pieces@) + ids(self.next_pieces@)
    }

    /// Fresh pieces only, and a stream of whole bags.
    pub open spec fn sound(&self) -> bool {
        &&& all_spawned(self.pieces@)
        &&& all_spawned(self.next_pieces@)
        &&& whole_bags(self.stream())
    }

    pub open spec fn wf(&self) -> bool {
        &&& self.sound()
        &&& self.pieces@.len() == 0 ==> self.next_pieces@.len() == 0
    }

    pub fn new() -> (q: Self)
        ensures
            q.wf(),
            q.drawn@ == Seq::<u8>::empty(),
            q.pieces@.len() == 0,
    {
        let q = Self { pieces: Vec::new(), next_pieces: Vec::new(), drawn: Ghost(Seq::empty()) };
        assert(q.stream() =~= Seq::<u8>::empty());
        q
    }

    /// Fills an empty queue with two shuffled bags; a queue that holds pieces is left alone.
    pub fn generate_seven_bag(&mut self)
        requires
            old(self).wf(),
        ensures
            final(self).wf(),
            final(self).drawn == old(self).drawn,
            final(self).pieces@.len() > 0,
            old(self).pieces@.len() > 0 ==> *final(self) == *old(self),
            old(self).pieces@.len() == 0 ==> {
                &&& final(self).pieces@.len() == BAG_SIZE
                &&& final(self).next_pieces@.len() == BAG_SIZE
                &&& is_bag(ids(final(self).pieces@))
                &&& is_bag(ids(final(self).next_pieces@))
            },
    {
        if self.pieces.len() == 0 {
            let ghost s0 = self.stream();
            let first = shuffled(piece_ids());
            push_bag(&mut self.pieces, &first);
            let second = shuffled(piece_ids());
            push_bag(&mut self.next_pieces, &second);
            proof {
                lemma_append_bag(s0, first@);
                lemma_append_bag(s0 + first@, second@);
                assert(old(self).next_pieces@.len() == 0);
                assert(ids(old(self).pieces@) =~= Seq::<u8>::empty());
                assert(ids(old(self).next_pieces@) =~= Seq::<u8>::empty());
                assert(self.stream() =~= s0 + first@ + second@);
                lemma_bag_facts(first@);
                lemma_bag_facts(second@);
                assert(ids(self.pieces@) =~= first@);
                assert(ids(self.next_pieces@) =~= second@);
            }
        }
    }

    /// Takes the front piece; the buffer is then topped up with one piece from the next bag,
    /// a fresh bag being shuffled when that one is used up.
    pub fn get_next_piece(&mut self) -> (r: Option<Piece>)
        requires
            old(self).wf(),
        ensures
            final(self).wf(),
            r is Some,
            r->0 == spawned(r->0.id),
            1 <= r->0.id <= 7,
            next_step(*old(self), *final(self), r->0),
    {
        if self.pieces.len() == 0 {
            self.generate_seven_bag();
        }
        let ghost s1 = self.stream();
        let ghost q1 = *self;
        let piece = self.pieces.remove(0);
        self.drawn = Ghost(self.drawn@.push(piece.id));
        proof {
            assert(self.stream() =~= s1);
        }
        if self.next_pieces.len() == 0 {
            self.generate_new_next_bag();
        }
        let ghost s2 = self.stream();
        let ghost nexts = self.next_pieces@;
        let ghost rest = self.pieces@;
        let next_piece = self.next_pieces.remove(0);
        self.pieces.push(next_piece);
        proof {
            assert(self.stream() =~= s2);
            assert(rest =~= q1.pieces@.drop_first());
            assert(self.pieces@ =~= rest.push(nexts[0]));
            assert(self.pieces@.drop_last() =~= rest);
            assert(self.next_pieces@ =~= nexts.drop_first());
            assert(seq![self.pieces@.last()] + self.next_pieces@ =~= nexts);
            if old(self).pieces@.len() > 0 && old(self).next_pieces@.len() > 0 {
                assert(q1 == *old(self));
            }
        }
        Some(piece)
    }

    fn generate_new_next_bag(&mut self)
        requires
            old(self).sound(),
        ensures
            final(self).sound(),
            final(self).drawn == old(self).drawn,
            final(self).pieces == old(self).pieces,
            final(self).next_pieces@.len() == old(self).next_pieces@.len() + BAG_SIZE,
            old(self).next_pieces@.len() == 0 ==> is_bag(ids(final(self).next_pieces@)),
    {
        let ghost s0 = self.stream();
        let bag = shuffled(piece_ids());
        push_bag(&mut self.next_pieces, &bag);
        proof {
            lemma_append_bag(s0, bag@);
            assert(self.stream() =~= s0 + bag@);
            lemma_bag_facts(bag@);
            if old(self).next_pieces@.len() == 0 {
                assert(ids(old(self).next_pieces@) =~= Seq::<u8>::empty());
                assert(ids(self.next_pieces@) =~= bag@);
            }
        }
    }

    /// The one-letter names of the buffered pieces and of the pieces of the next bag.
    pub fn get_piece_names(&self) -> (r: (Vec<String>, Vec<String>))
        requires
            self.wf(),
        ensures
            r.0@.len() == self.pieces@.len(),
            r.1@.len() == self.next_pieces@.len(),
            forall|i: int| 0 <= i < r.0@.len() ==> #[trigger] r.0@[i]@ == name_of(self.pieces@[i].id),
            forall|i: int| 0 <= i < r.1@.len() ==> #[trigger] r.1@[i]@ == name_of(self.next_pieces@[i].id),
    {
        (names_of(&self.pieces), names_of(&self.next_pieces))
    }
}

/// Bag fairness. `drawn` starts empty in a new queue and grows by the id of each piece that
/// `get_next_piece` serves; cut into groups of seven from its start, every complete group
/// holds each of the seven type ids exactly once.
pub proof fn lemma_drawn_bags_fair(q: Queue, k: int)
    requires
        q.wf(),
        0 <= k,
        BAG_SIZE * k + BAG_SIZE <= q.drawn@.len(),
    ensures
        bag_at(q.drawn@, k).len() == BAG_SIZE,
        forall|id: u8| 1 <= id <= 7 ==> #[trigger] bag_at(q.drawn@, k).to_multiset().count(id) == 1,
{
    let s = q.stream();
    assert(bag_at(s, k) =~= bag_at(q.drawn@, k));
    assert(k < s.len() / (BAG_SIZE as nat));
    assert(is_bag(bag_at(s, k)));
    lemma_bag_facts(bag_at(s, k));
}

fn names_of(pieces: &Vec<Piece>) -> (r: Vec<String>)
    ensures
        r@.len() == pieces@.len(),
        forall|i: int| 0 <= i < r@.len() ==> #[trigger] r@[i]@ == name_of(pieces@[i].id),
{
    let mut r: Vec<String> = Vec::new();
    let mut i: usize = 0;
    while i < pieces.len()
        invariant
            i <= pieces@.len(),
            r@.len() == i,
            forall|k: int| 0 <= k < i ==> #[trigger] r@[k]@ == name_of(pieces@[k].id),
        decreases pieces@.len() - i,
    {
        r.push(pieces[i].get_name().to_owned());
        i += 1;
    }
    r
}

} // verus!
