//! The high-score list: a capped, descending-sorted list of
//! (score, name, time) entries. Durable storage is the embedding
//! program's job; this module owns the ordering and the cap.

use vstd::prelude::*;

verus! {

/// How many entries the list keeps.
pub const MAX_SCORES: usize = 10;

/// A capped list of score entries, sorted by score, highest first.
pub struct Scores {
    scores: Vec<(i32, String, String)>,
}

impl View for Scores {
    type V = Seq<(i32, String, String)>;

    closed spec fn view(&self) -> Seq<(i32, String, String)> {
        self.scores@
    }
}

/// Entries are in descending score order.
pub open spec fn spec_sorted_desc(s: Seq<(i32, String, String)>) -> bool {
    forall|i: int, j: int| 0 <= i < j < s.len() ==> #[trigger] s[i].0 >= #[trigger] s[j].0
}

/// The position where a new entry of the given score is inserted: after
/// every entry with an equal or higher score, so ties keep their order of
/// arrival.
pub open spec fn spec_insert_pos(s: Seq<(i32, String, String)>, number: int) -> int
    decreases s.len(),
{
    if s.len() == 0 || s[0].0 < number {
        0
    } else {
        1 + spec_insert_pos(s.skip(1), number)
    }
}

/// The insertion point is within the list.
pub proof fn lemma_insert_pos_in_range(s: Seq<(i32, String, String)>, number: int)
    ensures
        0 <= spec_insert_pos(s, number) <= s.len(),
    decreases s.len(),
{
    if s.len() > 0 && s[0].0 >= number {
        lemma_insert_pos_in_range(s.skip(1), number);
    }
}

impl Scores {
    /// The list is sorted highest-first and holds at most the cap.
    pub open spec fn wf(self) -> bool {
        &&& spec_sorted_desc(self@)
        &&& self@.len() <= MAX_SCORES
    }

    /// An empty score list. The embedding program loads a stored list by
    /// adding its entries back in order.
    pub fn new() -> (s: Scores)
        ensures
            s@.len() == 0,
            s.wf(),
    {
        Scores { scores: Vec::new() }
    }

    /// Add one entry: it is inserted after every entry with an equal or
    /// higher score, and the list is cut back to the cap, dropping the
    /// lowest entries.
    pub fn add_score(&mut self, number: i32, name: String, time: String)
        requires
            old(self).wf(),
        ensures
            final(self).wf(),
            final(self)@ =~= old(self)@.insert(
                spec_insert_pos(old(self)@, number as int),
                (number, name, time),
            ).take(
                if old(self)@.len() + 1 <= MAX_SCORES {
                    old(self)@.len() + 1int
                } else {
                    MAX_SCORES as int
                },
            ),
    {
        proof {
            lemma_insert_pos_in_range(self.scores@, number as int);
            assert(self.scores@.skip(0) =~= self.scores@);
        }
        let mut pos: usize = 0;
        let n = self.scores.len();
        while pos < n && self.scores[pos].0 >= number
            invariant
                0 <= pos <= n,
                n == self.scores@.len(),
                forall|k: int| 0 <= k < pos ==> #[trigger] self.scores@[k].0 >= number,
                spec_insert_pos(self.scores@.skip(pos as int), number as int) + pos
                    == spec_insert_pos(self.scores@, number as int),
            decreases n - pos,
        {
            proof {
                assert(self.scores@.skip(pos as int)[0] == self.scores@[pos as int]);
                assert(self.scores@.skip(pos as int).skip(1) =~= self.scores@.skip(pos + 1));
            }
            pos = pos + 1;
        }
        proof {
            if pos < n {
                assert(self.scores@.skip(pos as int)[0] == self.scores@[pos as int]);
            }
            assert(spec_insert_pos(self.scores@.skip(pos as int), number as int) == 0);
            assert(spec_insert_pos(self.scores@, number as int) == pos as int);
        }
        self.scores.insert(pos, (number, name, time));
        if self.scores.len() > MAX_SCORES {
            self.scores.truncate(MAX_SCORES);
        }
        proof {
            let ins = old(self).scores@.insert(
                spec_insert_pos(old(self).scores@, number as int),
                (number, name, time),
            );
            assert(self.scores@ =~= ins.take(
                if old(self).scores@.len() + 1 <= MAX_SCORES {
                    old(self).scores@.len() + 1int
                } else {
                    MAX_SCORES as int
                },
            ));
            lemma_sorted_insert(old(self).scores@, number as int, (number, name, time));
            assert forall|i: int, j: int|
                0 <= i < j < self.scores@.len() implies #[trigger] self.scores@[i].0
                >= #[trigger] self.scores@[j].0 by {
                assert(self.scores@[i] == ins[i] && self.scores@[j] == ins[j]);
            }
        }
    }

    /// The entries, highest score first.
    pub fn get_scores(&self) -> (r: &Vec<(i32, String, String)>)
        ensures
            r@ == self@,
    {
        &self.scores
    }
}

/// Inserting an entry at its insertion point keeps the list sorted.
proof fn lemma_sorted_insert(s: Seq<(i32, String, String)>, number: int, e: (i32, String, String))
    requires
        spec_sorted_desc(s),
        e.0 == number,
    ensures
        spec_sorted_desc(s.insert(spec_insert_pos(s, number), e)),
    decreases s.len(),
{
    lemma_insert_pos_in_range(s, number);
    let p = spec_insert_pos(s, number);
    let t = s.insert(p, e);
    lemma_insert_pos_entries(s, number);
    assert forall|i: int, j: int| 0 <= i < j < t.len() implies #[trigger] t[i].0
        >= #[trigger] t[j].0 by {
        if i < p {
            assert(t[i] == s[i]);
        } else if i == p {
            assert(t[i] == e);
        } else {
            assert(t[i] == s[i - 1]);
        }
        if j < p {
            assert(t[j] == s[j]);
        } else if j == p {
            assert(t[j] == e);
        } else {
            assert(t[j] == s[j - 1]);
        }
    }
}

/// Entries before the insertion point score at least the new value; entries
/// from it on score strictly less.
proof fn lemma_insert_pos_entries(s: Seq<(i32, String, String)>, number: int)
    requires
        spec_sorted_desc(s),
    ensures
        forall|k: int|
            0 <= k < spec_insert_pos(s, number) ==> #[trigger] s[k].0 >= number,
        forall|k: int|
            spec_insert_pos(s, number) <= k < s.len() ==> #[trigger] s[k].0 < number,
    decreases s.len(),
{
    lemma_insert_pos_in_range(s, number);
    let p = spec_insert_pos(s, number);
    if s.len() == 0 {
    } else if s[0].0 < number {
        assert(p == 0);
        assert forall|k: int| 0 <= k < s.len() implies #[trigger] s[k].0 < number by {
            if k > 0 {
                assert(s[0].0 >= s[k].0);
            }
        }
    } else {
        let tail = s.skip(1);
        assert(spec_sorted_desc(tail)) by {
            assert forall|i: int, j: int|
                0 <= i < j < tail.len() implies #[trigger] tail[i].0 >= #[trigger] tail[j].0 by {
                assert(tail[i] == s[i + 1] && tail[j] == s[j + 1]);
            }
        }
        lemma_insert_pos_entries(tail, number);
        assert forall|k: int| 0 <= k < p implies #[trigger] s[k].0 >= number by {
            if k > 0 {
                assert(tail[k - 1] == s[k]);
            }
        }
        assert forall|k: int| p <= k < s.len() implies #[trigger] s[k].0 < number by {
            assert(tail[k - 1] == s[k]);
        }
    }
}

} // verus!
