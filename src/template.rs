//! Slicing of the persisted helper templates: sections are delimited by
//! start and end marker comments.
use vstd::prelude::*;
use crate::lex::{chars_of, push_char};

verus! {

pub open spec fn occurs_at(s: Seq<char>, p: Seq<char>, i: int) -> bool {
    0 <= i && i + p.len() <= s.len() && s.subrange(i, i + p.len()) == p
}

/// The first index at or after `from` where `p` occurs in `s`.
pub open spec fn first_index(s: Seq<char>, p: Seq<char>, from: int) -> Option<int>
    decreases s.len() + 1 - from,
{
    if from < 0 || from > s.len() || from + p.len() > s.len() {
        None
    } else if occurs_at(s, p, from) {
        Some(from)
    } else {
        first_index(s, p, from + 1)
    }
}

proof fn lemma_first_index_bounds(s: Seq<char>, p: Seq<char>, from: int)
    ensures
        first_index(s, p, from) matches Some(i) ==> from <= i && i + p.len() <= s.len(),
    decreases s.len() + 1 - from,
{
    if !(from < 0 || from > s.len() || from + p.len() > s.len()) && !occurs_at(s, p, from) {
        lemma_first_index_bounds(s, p, from + 1);
    }
}

fn occurs(s: &Vec<char>, p: &Vec<char>, i: usize) -> (r: bool)
    ensures
        r == occurs_at(s@, p@, i as int),
{
    if i > s.len() || p.len() > s.len() - i {
        return false;
    }
    let mut k: usize = 0;
    while k < p.len()
        invariant
            i + p.len() <= s.len(),
            k <= p.len(),
            forall|j: int| 0 <= j < k ==> s@[i + j] == p@[j],
        decreases p.len() - k,
    {
        if s[i + k] != p[k] {
            assert(s@.subrange(i as int, i + p.len())[k as int] != p@[k as int]);
            return false;
        }
        k = k + 1;
    }
    assert(s@.subrange(i as int, i + p.len()) =~= p@);
    true
}

fn find_from(s: &Vec<char>, p: &Vec<char>, from: usize) -> (r: Option<usize>)
    ensures
        r matches Some(i) ==> first_index(s@, p@, from as int) == Some(i as int),
        r is None ==> first_index(s@, p@, from as int) is None,
{
    let mut i = from;
    while i <= s.len() && p.len() <= s.len() - i
        invariant
            from <= i,
            first_index(s@, p@, from as int) == first_index(s@, p@, i as int),
        decreases s.len() + 1 - i,
    {
        if occurs(s, p, i) {
            return Some(i);
        }
        if i >= s.len() {
            assert(first_index(s@, p@, i + 1) is None);
            return None;
        }
        i = i + 1;
    }
    None
}

fn string_of(s: &Vec<char>, from: usize, to: usize) -> (r: String)
    requires
        from <= to <= s.len(),
    ensures
        r@ == s@.subrange(from as int, to as int),
{
    let mut r = String::new();
    let mut i = from;
    while i < to
        invariant
            from <= i <= to <= s.len(),
            r@ == s@.subrange(from as int, i as int),
        decreases to - i,
    {
        push_char(&mut r, s[i]);
        assert(r@ =~= s@.subrange(from as int, i + 1));
        i = i + 1;
    }
    r
}

/// The text between the first `start` marker and the next `end` marker
/// after it (or the end of the text); `None` without a `start` marker.
pub open spec fn between(s: Seq<char>, start: Seq<char>, end: Seq<char>) -> Option<Seq<char>> {
    match first_index(s, start, 0) {
        None => None,
        Some(i) => {
            let b = i + start.len();
            Some(
                match first_index(s, end, b) {
                    Some(k) => s.subrange(b, k),
                    None => s.subrange(b, s.len() as int),
                },
            )
        },
    }
}

/// The pieces of `s` outside the sections delimited by `start` and `end`;
/// `None` when a section has no closing marker.
pub open spec fn outside(s: Seq<char>, start: Seq<char>, end: Seq<char>) -> Option<Seq<Seq<char>>>
    decreases s.len(),
{
    if start.len() == 0 {
        None
    } else {
        match first_index(s, start, 0) {
            None => Some(seq![s]),
            Some(i) => match first_index(s, end, i + start.len()) {
                None => None,
                Some(k) => if k + end.len() <= s.len() && k + end.len() > 0 {
                    match outside(s.subrange(k + end.len(), s.len() as int), start, end) {
                        Some(rest) => Some(seq![s.subrange(0, i)] + rest),
                        None => None,
                    }
                } else {
                    None
                },
            },
        }
    }
}

/// A view over a template text.
pub struct FileStr {
    pub store: String,
}

impl FileStr {
    pub fn new(source: &str) -> (r: Self)
        ensures
            r.store@ == source@,
    {
        FileStr { store: String::from_str(source) }
    }

    /// The text between the first `start_marker` and the next `end_marker`.
    pub fn slice_between(&self, start_marker: &str, end_marker: &str) -> (r: Option<String>)
        ensures
            r is None <==> between(self.store@, start_marker@, end_marker@) is None,
            r matches Some(t) ==> between(self.store@, start_marker@, end_marker@) == Some(t@),
    {
        let s = chars_of(self.store.as_str());
        let a = chars_of(start_marker);
        let b = chars_of(end_marker);
        match find_from(&s, &a, 0) {
            None => None,
            Some(i) => {
                proof {
                    lemma_first_index_bounds(s@, a@, 0);
                    assert(first_index(s@, a@, 0) == Some(i as int));
                    assert(i + a@.len() <= s@.len());
                    assert(i + a.len() <= s.len());
                }
                let from = i + a.len();
                match find_from(&s, &b, from) {
                    Some(k) => {
                        proof {
                            lemma_first_index_bounds(s@, b@, from as int);
                        }
                        Some(string_of(&s, from, k))
                    },
                    None => Some(string_of(&s, from, s.len())),
                }
            },
        }
    }

    /// The pieces of the text outside the sections delimited by the two
    /// markers, in order.
    pub fn slice_out(&self, start_marker: &str, end_marker: &str) -> (r: Option<Vec<String>>)
        requires
            start_marker@.len() > 0,
        ensures
            r is None <==> outside(self.store@, start_marker@, end_marker@) is None,
            r matches Some(v) ==> outside(self.store@, start_marker@, end_marker@) == Some(
                v@.map_values(|x: String| x@),
            ),
    {
        let s = chars_of(self.store.as_str());
        let a = chars_of(start_marker);
        let b = chars_of(end_marker);
        let mut out: Vec<String> = Vec::new();
        let mut pos: usize = 0;
        proof {
            assert(s@.subrange(0, s.len() as int) =~= s@);
            assert(out@.map_values(|x: String| x@) =~= Seq::<Seq<char>>::empty());
            if let Some(all) = outside(self.store@, a@, b@) {
                assert(Seq::<Seq<char>>::empty() + all =~= all);
            }
        }
        loop
            invariant
                pos <= s.len(),
                a@.len() > 0,
                a@ == start_marker@,
                b@ == end_marker@,
                s@ == self.store@,
                outside(self.store@, a@, b@) matches Some(all) ==> (outside(s@.subrange(pos as int, s.len() as int), a@, b@) matches Some(rest) && all == out@.map_values(|x: String| x@) + rest),
                outside(self.store@, a@, b@) is None <==> outside(s@.subrange(pos as int, s.len() as int), a@, b@) is None,
            decreases s.len() - pos,
        {
            let rest = string_of(&s, pos, s.len());
            let rc = chars_of(rest.as_str());
            let ghost tail = s@.subrange(pos as int, s.len() as int);
            match find_from(&rc, &a, 0) {
                None => {
                    let ghost o0 = out@;
                    out.push(rest);
                    proof {
                        assert(outside(tail, a@, b@) == Some(seq![tail]));
                        assert(out@.map_values(|x: String| x@) =~= o0.map_values(|x: String| x@).push(tail));
                        assert(o0.map_values(|x: String| x@) + seq![tail] =~= o0.map_values(|x: String| x@).push(tail));
                    }
                    return Some(out);
                },
                Some(i) => {
                    proof {
                        lemma_first_index_bounds(rc@, a@, 0);
                    }
                    match find_from(&rc, &b, i + a.len()) {
                        None => {
                            return None;
                        },
                        Some(k) => {
                            proof {
                                lemma_first_index_bounds(rc@, b@, (i + a.len()) as int);
                            }
                            let ghost o0 = out@;
                            let piece = string_of(&rc, 0, i);
                            out.push(piece);
                            let next = pos + k + b.len();
                            proof {
                                assert(tail.subrange(k + b@.len(), tail.len() as int) =~= s@.subrange(next as int, s.len() as int));
                                assert(out@.map_values(|x: String| x@) =~= o0.map_values(|x: String| x@).push(tail.subrange(0, i as int)));
                                if let Some(r2) = outside(s@.subrange(next as int, s.len() as int), a@, b@) {
                                    assert(seq![tail.subrange(0, i as int)] + r2 =~= seq![tail.subrange(0, i as int)] + r2);
                                    assert(o0.map_values(|x: String| x@) + (seq![tail.subrange(0, i as int)] + r2) =~= out@.map_values(|x: String| x@) + r2);
                                }
                            }
                            pos = next;
                        },
                    }
                },
            }
        }
    }
}

} // verus!
