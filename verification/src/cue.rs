//! Cue ids and their order: a cue id is a list of numbers (`1.2.5`), and cue
//! ids are ordered as those lists are, number by number, a shorter list before
//! every longer list it begins.
use vstd::prelude::*;

verus! {

/// `a` comes before `b` in the order of cue ids.
pub open spec fn lex_lt(a: Seq<u32>, b: Seq<u32>) -> bool
    decreases a.len(),
{
    if a.len() == 0 {
        b.len() > 0
    } else if b.len() == 0 {
        false
    } else if a[0] < b[0] {
        true
    } else if a[0] > b[0] {
        false
    } else {
        lex_lt(a.drop_first(), b.drop_first())
    }
}

/// No cue id comes before itself.
pub proof fn lemma_lex_irreflexive(a: Seq<u32>)
    ensures
        !lex_lt(a, a),
    decreases a.len(),
{
    if a.len() > 0 {
        lemma_lex_irreflexive(a.drop_first());
    }
}

/// Of two cue ids, at most one comes before the other.
pub proof fn lemma_lex_asymmetric(a: Seq<u32>, b: Seq<u32>)
    ensures
        !(lex_lt(a, b) && lex_lt(b, a)),
    decreases a.len(),
{
    if a.len() > 0 && b.len() > 0 && a[0] == b[0] {
        lemma_lex_asymmetric(a.drop_first(), b.drop_first());
    }
}

/// The order of cue ids is transitive.
pub proof fn lemma_lex_transitive(a: Seq<u32>, b: Seq<u32>, c: Seq<u32>)
    requires
        lex_lt(a, b),
        lex_lt(b, c),
    ensures
        lex_lt(a, c),
    decreases a.len(),
{
    if a.len() > 0 && b.len() > 0 && c.len() > 0 && a[0] == b[0] && b[0] == c[0] {
        lemma_lex_transitive(a.drop_first(), b.drop_first(), c.drop_first());
    }
}

/// Of two different cue ids, one comes before the other.
pub proof fn lemma_lex_total(a: Seq<u32>, b: Seq<u32>)
    requires
        a != b,
    ensures
        lex_lt(a, b) || lex_lt(b, a),
    decreases a.len(),
{
    if a.len() == 0 {
        assert(b.len() > 0) by {
            if b.len() == 0 {
                assert(a =~= b);
            }
        }
    } else if b.len() > 0 && a[0] == b[0] {
        if a.drop_first() == b.drop_first() {
            assert(a.len() == b.len()) by {
                assert(a.drop_first().len() == b.drop_first().len());
            }
            assert(a =~= b) by {
                assert forall|i: int| 0 <= i < a.len() implies a[i] == b[i] by {
                    if i > 0 {
                        assert(a[i] == a.drop_first()[i - 1]);
                        assert(b[i] == b.drop_first()[i - 1]);
                    }
                }
            }
        }
        lemma_lex_total(a.drop_first(), b.drop_first());
    }
}

/// After a common prefix, the order is decided by what follows it.
proof fn lemma_lex_skip(a: Seq<u32>, b: Seq<u32>, i: int)
    requires
        0 <= i <= a.len(),
        i <= b.len(),
        a.subrange(0, i) == b.subrange(0, i),
    ensures
        lex_lt(a, b) == lex_lt(a.skip(i), b.skip(i)),
    decreases i,
{
    if i == 0 {
        assert(a.skip(0) =~= a);
        assert(b.skip(0) =~= b);
    } else {
        assert(a[0] == a.subrange(0, i)[0]);
        assert(b[0] == b.subrange(0, i)[0]);
        assert(a.drop_first().subrange(0, i - 1) =~= a.subrange(0, i).drop_first());
        assert(b.drop_first().subrange(0, i - 1) =~= b.subrange(0, i).drop_first());
        lemma_lex_skip(a.drop_first(), b.drop_first(), i - 1);
        assert(a.drop_first().skip(i - 1) =~= a.skip(i));
        assert(b.drop_first().skip(i - 1) =~= b.skip(i));
    }
}

/// A cue id: a list of numbers, written `1.2.5`.
#[derive(Debug, Clone, PartialEq, Eq, PartialOrd, Ord, Hash)]
pub struct CueId(pub Vec<u32>);

impl View for CueId {
    type V = Seq<u32>;

    open spec fn view(&self) -> Seq<u32> {
        self.0@
    }
}

impl CueId {
    /// A copy of this id.
    pub fn duplicate(&self) -> (r: CueId)
        ensures
            r@ == self@,
    {
        CueId(self.0.clone())
    }

    /// Both ids are the same.
    pub fn same(&self, other: &CueId) -> (r: bool)
        ensures
            r == (self@ == other@),
    {
        let n = self.0.len();
        if n != other.0.len() {
            return false;
        }
        for i in 0..n
            invariant
                n == self@.len(),
                n == other@.len(),
                forall|k: int| 0 <= k < i ==> self@[k] == other@[k],
        {
            if self.0[i] != other.0[i] {
                return false;
            }
        }
        assert(self@ =~= other@);
        true
    }

    /// This id comes before `other`.
    pub fn precedes(&self, other: &CueId) -> (r: bool)
        ensures
            r == lex_lt(self@, other@),
    {
        let a = &self.0;
        let b = &other.0;
        let n = if a.len() < b.len() {
            a.len()
        } else {
            b.len()
        };
        for i in 0..n
            invariant
                n <= a@.len(),
                n <= b@.len(),
                n == a@.len() || n == b@.len(),
                a@ == self@,
                b@ == other@,
                a@.subrange(0, i as int) == b@.subrange(0, i as int),
        {
            proof {
                lemma_lex_skip(a@, b@, i as int);
                assert(a@.skip(i as int)[0] == a@[i as int]);
                assert(b@.skip(i as int)[0] == b@[i as int]);
            }
            if a[i] < b[i] {
                return true;
            }
            if a[i] > b[i] {
                return false;
            }
            assert(a@.subrange(0, i + 1) =~= a@.subrange(0, i as int).push(a@[i as int]));
            assert(b@.subrange(0, i + 1) =~= b@.subrange(0, i as int).push(b@[i as int]));
        }
        proof {
            lemma_lex_skip(a@, b@, n as int);
        }
        a.len() < b.len()
    }

    /// The id written as its numbers joined by dots.
    pub fn to_text(&self) -> (r: String)
        ensures
            r@ == cue_id_text(self@),
    {
        let mut s = String::new();
        let n = self.0.len();
        for i in 0..n
            invariant
                n == self@.len(),
                s@ == cue_id_text(self@.subrange(0, i as int)),
        {
            if i > 0 {
                s.append(".");
            }
            let d = crate::text::u32_text(self.0[i]);
            s.append(d.as_str());
            proof {
                reveal_strlit(".");
                let pre = self@.subrange(0, i + 1);
                assert(pre.drop_last() =~= self@.subrange(0, i as int));
            }
        }
        assert(self@.subrange(0, n as int) =~= self@);
        s
    }
}

/// The numbers of a cue id joined by dots.
pub open spec fn cue_id_text(s: Seq<u32>) -> Seq<char>
    decreases s.len(),
{
    if s.len() == 0 {
        Seq::empty()
    } else if s.len() == 1 {
        crate::text::dec32(s[0])
    } else {
        cue_id_text(s.drop_last()) + seq!['.'] + crate::text::dec32(s.last())
    }
}

} // verus!
