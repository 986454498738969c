//! Paths: immutable descriptors of a location inside a structured document,
//! built once from a dotted string (`"user.id"` becomes the segments
//! `["user", "id"]`) and reused per extraction.

use vstd::prelude::*;

verus! {

/// The segments denoted by a dotted string, processed one character at a
/// time from the left: a dot closes the current segment, any other
/// character extends it. The empty string denotes a single empty segment.
pub open spec fn split_dotted(s: Seq<char>) -> Seq<Seq<char>>
    decreases s.len(),
{
    if s.len() == 0 {
        seq![Seq::<char>::empty()]
    } else if s.last() == '.' {
        split_dotted(s.drop_last()).push(Seq::<char>::empty())
    } else {
        let r = split_dotted(s.drop_last());
        r.update(r.len() - 1, r.last().push(s.last()))
    }
}

/// A dotted string always denotes at least one segment.
pub proof fn lemma_split_dotted_nonempty(s: Seq<char>)
    ensures
        split_dotted(s).len() >= 1,
    decreases s.len(),
{
    if s.len() > 0 {
        lemma_split_dotted_nonempty(s.drop_last());
    }
}

/// An ordered, non-empty sequence of field-name segments locating a value
/// inside a structured document. Equal and hashed by segment sequence.
#[derive(Clone, Debug, PartialEq, Eq, Hash)]
pub struct Path {
    segments: Vec<String>,
}

impl View for Path {
    type V = Seq<Seq<char>>;

    closed spec fn view(&self) -> Seq<Seq<char>> {
        self.segments.deep_view()
    }
}

impl Path {
    /// Builds a path from a dotted string. Total: the empty string yields
    /// the degenerate path of one empty segment.
    pub fn from(s: &str) -> (r: Path)
        ensures
            r@ == split_dotted(s@),
            r@.len() >= 1,
    {
        let len = s.unicode_len();
        let mut segments: Vec<String> = Vec::new();
        let mut start: usize = 0;
        let mut i: usize = 0;
        while i < len
            invariant
                0 <= start <= i <= len,
                len == s@.len(),
                segments.deep_view().push(s@.subrange(start as int, i as int)) =~~= split_dotted(
                    s@.take(i as int),
                ),
            decreases len - i,
        {
            let c = s.get_char(i);
            proof {
                assert(s@.take(i + 1).drop_last() =~= s@.take(i as int));
                assert(s@.take(i + 1).last() == s@[i as int]);
            }
            if c == '.' {
                let seg = String::from_str(s.substring_char(start, i));
                segments.push(seg);
                start = i + 1;
                proof {
                    assert(s@.subrange(i + 1, i + 1) =~= Seq::<char>::empty());
                    assert(segments.deep_view().push(s@.subrange(i + 1, i + 1)) =~~= split_dotted(
                        s@.take(i + 1),
                    ));
                }
            } else {
                proof {
                    assert(s@.subrange(start as int, i + 1) =~= s@.subrange(
                        start as int,
                        i as int,
                    ).push(s@[i as int]));
                    assert(segments.deep_view().push(s@.subrange(start as int, i + 1))
                        =~~= split_dotted(s@.take(i + 1)));
                }
            }
            i = i + 1;
        }
        let seg = String::from_str(s.substring_char(start, len));
        segments.push(seg);
        proof {
            assert(s@.take(len as int) =~= s@);
            lemma_split_dotted_nonempty(s@);
            let r = Path { segments };
            assert(r@ =~~= split_dotted(s@));
        }
        Path { segments }
    }

    /// Number of segments.
    pub fn len(&self) -> (r: usize)
        ensures
            r == self@.len(),
    {
        self.segments.len()
    }

    /// The segment at position `i`.
    pub fn segment(&self, i: usize) -> (r: &String)
        requires
            i < self@.len(),
        ensures
            r@ == self@[i as int],
    {
        &self.segments[i]
    }

    /// An owned copy denoting the same location.
    pub fn dup(&self) -> (r: Path)
        ensures
            r@ == self@,
    {
        let mut segments: Vec<String> = Vec::new();
        let mut i: usize = 0;
        while i < self.segments.len()
            invariant
                0 <= i <= self.segments@.len(),
                segments.deep_view() =~~= self.segments.deep_view().take(i as int),
            decreases self.segments@.len() - i,
        {
            let ghost pre = segments.deep_view();
            segments.push(self.segments[i].clone());
            proof {
                assert(segments.deep_view() =~~= pre.push(self.segments@[i as int]@));
                assert(self.segments.deep_view().take(i + 1) =~~= pre.push(
                    self.segments@[i as int]@,
                ));
            }
            i = i + 1;
        }
        proof {
            assert(segments.deep_view() =~~= self.segments.deep_view());
        }
        Path { segments }
    }
}

} // verus!
