//! Cutting a text at the occurrences of several samples, which stay among
//! the pieces.

use crate::text::{
    chars_of, find_from, first_occurrence, lemma_first_occurrence_from, occurs_at, slice_views,
};
use vstd::prelude::*;

verus! {

/// The types whose text can be cut.
pub trait Sealed {

}

impl Sealed for String {

}

impl Sealed for str {

}

/// Whether no sample is empty.
pub open spec fn no_empty_sample(samples: Seq<Seq<char>>) -> bool {
    forall|k: int| 0 <= k < samples.len() ==> (#[trigger] samples[k]).len() > 0
}

/// The sample that occurs first in `s`, as its position in `s` and its
/// index among the samples. Of several samples that occur first at one
/// position, the one that is listed first counts.
pub open spec fn earliest(s: Seq<char>, samples: Seq<Seq<char>>) -> Option<(int, int)>
    decreases samples.len(),
{
    if samples.len() == 0 {
        None
    } else {
        let before = earliest(s, samples.drop_last());
        match first_occurrence(s, samples.last()) {
            None => before,
            Some(pos) => match before {
                Some(found) => if found.0 <= pos {
                    before
                } else {
                    Some((pos, samples.len() - 1))
                },
                None => Some((pos, samples.len() - 1)),
            },
        }
    }
}

/// The earliest sample is a sample that occurs in `s` at its position, and
/// no sample occurs before that position.
pub proof fn lemma_earliest(s: Seq<char>, samples: Seq<Seq<char>>)
    ensures
        match earliest(s, samples) {
            Some((pos, k)) => {
                &&& 0 <= k < samples.len()
                &&& first_occurrence(s, samples[k]) == Some(pos)
                &&& occurs_at(s, samples[k], pos)
                &&& forall|j: int|
                    0 <= j < samples.len() ==> match first_occurrence(s, #[trigger] samples[j]) {
                        Some(other) => pos < other || (pos == other && k <= j),
                        None => true,
                    }
            },
            None => forall|j: int|
                0 <= j < samples.len() ==> first_occurrence(s, #[trigger] samples[j]) is None,
        },
    decreases samples.len(),
{
    if samples.len() > 0 {
        let init = samples.drop_last();
        lemma_earliest(s, init);
        lemma_first_occurrence_from(s, samples.last(), 0);
        assert forall|j: int| 0 <= j < init.len() implies init[j] == samples[j] by {}
        match earliest(s, samples) {
            Some((pos, k)) => {
                assert forall|j: int| 0 <= j < samples.len() implies match first_occurrence(
                    s,
                    #[trigger] samples[j],
                ) {
                    Some(other) => pos < other || (pos == other && k <= j),
                    None => true,
                } by {
                    if j < init.len() {
                        assert(init[j] == samples[j]);
                    }
                }
            },
            None => {
                assert forall|j: int| 0 <= j < samples.len() implies first_occurrence(
                    s,
                    #[trigger] samples[j],
                ) is None by {
                    if j < init.len() {
                        assert(init[j] == samples[j]);
                    }
                }
            },
        }
    }
}

/// The pieces of `s` when it is cut before and after each sample, from left
/// to right: at each step the earliest sample is cut out, with what stands
/// before it where that is not empty, and the rest is cut in the same way.
/// An empty text has no pieces.
pub open spec fn chunks_of(s: Seq<char>, samples: Seq<Seq<char>>) -> Seq<Seq<char>>
    decreases s.len(),
    when no_empty_sample(samples)
{
    if s.len() == 0 {
        Seq::empty()
    } else {
        match earliest(s, samples) {
            None => seq![s],
            Some((pos, k)) => {
                proof {
                    lemma_earliest(s, samples);
                }
                let rest = chunks_of(s.skip(pos + samples[k].len()), samples);
                if pos > 0 {
                    seq![s.take(pos), samples[k]] + rest
                } else {
                    seq![samples[k]] + rest
                }
            },
        }
    }
}

/// The pieces put together again.
pub open spec fn glued(pieces: Seq<Seq<char>>) -> Seq<char>
    decreases pieces.len(),
{
    if pieces.len() == 0 {
        Seq::empty()
    } else {
        pieces[0] + glued(pieces.drop_first())
    }
}

/// One more piece at the end is put behind the others.
pub proof fn lemma_glued_push(pieces: Seq<Seq<char>>, piece: Seq<char>)
    ensures
        glued(pieces.push(piece)) == glued(pieces) + piece,
    decreases pieces.len(),
{
    let all = pieces.push(piece);
    if pieces.len() == 0 {
        assert(all.drop_first() =~= Seq::<Seq<char>>::empty());
        assert(glued(all.drop_first()) =~= Seq::<char>::empty());
        assert(glued(all) =~= glued(pieces) + piece);
    } else {
        lemma_glued_push(pieces.drop_first(), piece);
        assert(all.drop_first() =~= pieces.drop_first().push(piece));
        assert(glued(all) =~= glued(pieces) + piece);
    }
}

/// Cutting loses nothing: no piece is empty, and the pieces put together
/// are the text.
pub proof fn lemma_chunks_of(s: Seq<char>, samples: Seq<Seq<char>>)
    requires
        no_empty_sample(samples),
    ensures
        glued(chunks_of(s, samples)) == s,
        forall|i: int|
            0 <= i < chunks_of(s, samples).len() ==> (#[trigger] chunks_of(s, samples)[i]).len()
                > 0,
    decreases s.len(),
{
    let chunks = chunks_of(s, samples);
    if s.len() == 0 {
    } else {
        match earliest(s, samples) {
            None => {
                assert(chunks == seq![s]);
                assert(chunks.drop_first() =~= Seq::<Seq<char>>::empty());
                assert(glued(chunks.drop_first()) =~= Seq::<char>::empty());
                assert(glued(chunks) =~= s);
            },
            Some((pos, k)) => {
                lemma_earliest(s, samples);
                let sample = samples[k];
                let after = s.skip(pos + sample.len());
                let rest = chunks_of(after, samples);
                lemma_chunks_of(after, samples);
                assert(s.subrange(pos, pos + sample.len()) == sample);
                if pos > 0 {
                    assert(chunks == seq![s.take(pos), sample] + rest);
                    assert(chunks.drop_first() =~= seq![sample] + rest);
                    assert(chunks.drop_first().drop_first() =~= rest);
                    assert(glued(chunks.drop_first()) == sample + glued(rest));
                    assert(glued(chunks) == s.take(pos) + (sample + glued(rest)));
                    assert(glued(chunks) =~= s);
                    assert forall|i: int| 0 <= i < chunks.len() implies (#[trigger] chunks[i]).len()
                        > 0 by {
                        if i >= 2 {
                            assert(chunks[i] == rest[i - 2]);
                        }
                    }
                } else {
                    assert(chunks == seq![sample] + rest);
                    assert(chunks.drop_first() =~= rest);
                    assert(glued(chunks) =~= sample + glued(rest));
                    assert(glued(chunks) =~= s);
                    assert forall|i: int| 0 <= i < chunks.len() implies (#[trigger] chunks[i]).len()
                        > 0 by {
                        if i >= 1 {
                            assert(chunks[i] == rest[i - 1]);
                        }
                    }
                }
            },
        }
    }
}

/// Cuts a text at the occurrences of the samples of `by`, which stay among
/// the pieces.
pub trait ChunkByAny: Sealed {
    /// The text.
    spec fn text(&self) -> Seq<char>;

    /// Cuts the text before and after each sample, from left to right.
    ///
    /// Where several samples occur at one position, the one that `by` lists
    /// first is cut out: a sample that another sample starts with has to
    /// come after it. No sample may be empty.
    fn chunk_by_any<'a>(&'a self, by: &[&'a str]) -> (chunks: Vec<&'a str>)
        requires
            no_empty_sample(slice_views(by@)),
        ensures
            slice_views(chunks@) == chunks_of(self.text(), slice_views(by@)),
    ;
}

/// The characters of each sample.
fn chars_of_each(by: &[&str]) -> (samples: Vec<Vec<char>>)
    ensures
        samples.len() == by.len(),
        forall|k: int| 0 <= k < by.len() ==> (#[trigger] samples@[k])@ == by@[k]@,
{
    let mut samples: Vec<Vec<char>> = Vec::new();
    let mut k: usize = 0;
    while k < by.len()
        invariant
            k <= by.len(),
            samples.len() == k,
            forall|j: int| 0 <= j < k ==> (#[trigger] samples@[j])@ == by@[j]@,
        decreases by.len() - k,
    {
        samples.push(chars_of(by[k]));
        k += 1;
    }
    samples
}

/// Finds the sample that occurs first in `cs`.
fn find_earliest(cs: &Vec<char>, samples: &Vec<Vec<char>>, Ghost(views): Ghost<Seq<Seq<char>>>) -> (r:
    Option<(usize, usize)>)
    requires
        views.len() == samples.len(),
        forall|k: int| 0 <= k < samples.len() ==> (#[trigger] samples@[k])@ == views[k],
    ensures
        match r {
            Some((pos, k)) => earliest(cs@, views) == Some((pos as int, k as int)),
            None => earliest(cs@, views) is None,
        },
{
    let mut best: Option<(usize, usize)> = None;
    let mut k: usize = 0;
    proof {
        assert(views.take(0) =~= Seq::<Seq<char>>::empty());
    }
    while k < samples.len()
        invariant
            k <= samples.len() == views.len(),
            forall|j: int| 0 <= j < samples.len() ==> (#[trigger] samples@[j])@ == views[j],
            match best {
                Some((pos, at)) => earliest(cs@, views.take(k as int)) == Some(
                    (pos as int, at as int),
                ),
                None => earliest(cs@, views.take(k as int)) is None,
            },
        decreases samples.len() - k,
    {
        proof {
            assert(views.take(k + 1).drop_last() =~= views.take(k as int));
            assert(views.take(k + 1).last() == views[k as int]);
        }
        match find_from(cs, &samples[k], 0) {
            Some(pos) => {
                let better = match best {
                    Some((found, _)) => pos < found,
                    None => true,
                };
                if better {
                    best = Some((pos, k));
                }
            },
            None => {},
        }
        k += 1;
    }
    proof {
        assert(views.take(k as int) =~= views);
    }
    best
}

impl ChunkByAny for str {
    open spec fn text(&self) -> Seq<char> {
        self@
    }

    fn chunk_by_any<'a>(&'a self, by: &[&'a str]) -> (chunks: Vec<&'a str>) {
        let ghost views = slice_views(by@);
        let samples = chars_of_each(by);
        let mut chunks: Vec<&'a str> = Vec::new();
        let mut slice: &'a str = self;
        proof {
            assert(slice_views(chunks@) =~= Seq::<Seq<char>>::empty());
        }
        loop
            invariant
                views == slice_views(by@),
                no_empty_sample(views),
                samples.len() == by.len(),
                forall|k: int| 0 <= k < by.len() ==> (#[trigger] samples@[k])@ == views[k],
                slice_views(chunks@) + chunks_of(slice@, views) == chunks_of(self@, views),
            ensures
                slice@.len() == 0,
            decreases slice@.len(),
        {
            let cs = chars_of(slice);
            let n = cs.len();
            if n == 0 {
                break ;
            }
            let ghost done = slice_views(chunks@);
            match find_earliest(&cs, &samples, Ghost(views)) {
                Some((pos, k)) => {
                    proof {
                        lemma_earliest(slice@, views);
                    }
                    let sample = by[k];
                    let end: usize = pos + samples[k].len();
                    if pos > 0 {
                        let head = slice.substring_char(0, pos);
                        chunks.push(head);
                    }
                    chunks.push(sample);
                    let rest = slice.substring_char(end, n);
                    proof {
                        assert(rest@ =~= slice@.skip(end as int));
                        if pos > 0 {
                            assert(slice_views(chunks@) =~= done + seq![
                                slice@.take(pos as int),
                                views[k as int],
                            ]);
                        } else {
                            assert(slice_views(chunks@) =~= done + seq![views[k as int]]);
                        }
                        assert(slice_views(chunks@) + chunks_of(rest@, views) =~= done + chunks_of(
                            slice@,
                            views,
                        ));
                    }
                    slice = rest;
                },
                None => {
                    chunks.push(slice);
                    proof {
                        assert(slice_views(chunks@) =~= done + seq![slice@]);
                        assert(chunks_of(slice@, views) == seq![slice@]);
                    }
                    let rest = slice.substring_char(n, n);
                    proof {
                        assert(rest@ =~= Seq::<char>::empty());
                        assert(chunks_of(rest@, views) =~= Seq::<Seq<char>>::empty());
                        assert(slice_views(chunks@) + chunks_of(rest@, views) =~= slice_views(
                            chunks@,
                        ));
                    }
                    slice = rest;
                },
            }
        }
        proof {
            assert(chunks_of(slice@, views) =~= Seq::<Seq<char>>::empty());
            assert(slice_views(chunks@) + chunks_of(slice@, views) =~= slice_views(chunks@));
        }
        chunks
    }
}

impl ChunkByAny for String {
    open spec fn text(&self) -> Seq<char> {
        self@
    }

    fn chunk_by_any<'a>(&'a self, by: &[&'a str]) -> (chunks: Vec<&'a str>) {
        self.as_str().chunk_by_any(by)
    }
}

} // verus!
