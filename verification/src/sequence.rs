//! Sequences of cues, their current cue and the cues fading in and out.
//!
//! Times are milliseconds on the console's clock; the caller passes the
//! current time where an operation needs it.
use vstd::prelude::*;

use crate::cue::{lex_lt, lemma_lex_asymmetric, lemma_lex_irreflexive, lemma_lex_total, lemma_lex_transitive, CueId};
use crate::object::{ObjectId, PoolId};

verus! {

/// What a cue plays: the values of a preset on the fixtures of a group.
#[derive(Debug, Clone)]
pub struct Recipe {
    pub group_id: Option<ObjectId>,
    pub preset_id: Option<ObjectId>,
}

/// A cue of a sequence.
#[derive(Debug, Clone)]
pub struct Cue {
    pub id: CueId,
    pub name: String,
    /// Fade-in time, in milliseconds.
    pub fade_in_time: u64,
    /// Fade-out time, in milliseconds.
    pub fade_out_time: u64,
    pub recipes: Vec<Recipe>,
}

impl Cue {
    /// The cue's id.
    pub fn id(&self) -> (r: &CueId)
        ensures
            *r == self.id,
    {
        &self.id
    }

    /// The cue's name.
    pub fn name(&self) -> (r: &str)
        ensures
            r@ == self.name@,
    {
        self.name.as_str()
    }

    /// The cue's fade-in time, in milliseconds.
    pub fn fade_in_time(&self) -> (r: u64)
        ensures
            r == self.fade_in_time,
    {
        self.fade_in_time
    }

    /// The cue's fade-out time, in milliseconds.
    pub fn fade_out_time(&self) -> (r: u64)
        ensures
            r == self.fade_out_time,
    {
        self.fade_out_time
    }

    /// The cue's recipes.
    pub fn recipes(&self) -> (r: &[Recipe])
        ensures
            r@ == self.recipes@,
    {
        self.recipes.as_slice()
    }
}

/// A sequence of cues.
#[derive(Debug, Clone)]
pub struct Sequence {
    pub name: String,
    pub id: ObjectId,
    pub pool_id: PoolId,
    pub cues: Vec<Cue>,
    pub current_cue: Option<CueId>,
    /// When each cue that is fading in started to.
    pub cue_fade_in_starts: Vec<(CueId, u64)>,
    /// When each cue that is fading out started to.
    pub cue_fade_out_starts: Vec<(CueId, u64)>,
}

/// The index of the first cue with this id.
pub open spec fn cue_index(cues: Seq<Cue>, id: Seq<u32>) -> Option<int> {
    if (exists|i: int|
                0 <= i < cues.len() && #[trigger] cues[i].id@ == id && forall|j: int|
                    0 <= j < i ==> #[trigger] cues[j].id@ != id) {
        Some(
            choose|i: int|
                0 <= i < cues.len() && #[trigger] cues[i].id@ == id && forall|j: int|
                    0 <= j < i ==> #[trigger] cues[j].id@ != id,
        )
    } else {
        None
    }
}

/// The cues strictly between `lo` and `hi`, where given.
pub open spec fn window(lo: Option<Seq<u32>>, hi: Option<Seq<u32>>) -> spec_fn(Seq<u32>) -> bool {
    |c: Seq<u32>|
        (match lo {
            Some(l) => lex_lt(l, c),
            None => true,
        }) && (match hi {
            Some(h) => lex_lt(c, h),
            None => true,
        })
}

/// Among the first `n` cues, cue `i` is selected by `keep`, no selected cue
/// comes before it, and no earlier selected cue has its id.
pub open spec fn is_first_min(cues: Seq<Cue>, keep: spec_fn(Seq<u32>) -> bool, i: int, n: int) -> bool {
    &&& 0 <= i < n <= cues.len()
    &&& keep(cues[i].id@)
    &&& forall|j: int| 0 <= j < n && keep(#[trigger] cues[j].id@) ==> !lex_lt(cues[j].id@, cues[i].id@)
    &&& forall|j: int| 0 <= j < i && keep(#[trigger] cues[j].id@) ==> cues[j].id@ != cues[i].id@
}

/// Among the first `n` cues, cue `i` is selected by `keep`, no selected cue
/// comes after it, and no later selected cue has its id.
pub open spec fn is_last_max(cues: Seq<Cue>, keep: spec_fn(Seq<u32>) -> bool, i: int, n: int) -> bool {
    &&& 0 <= i < n <= cues.len()
    &&& keep(cues[i].id@)
    &&& forall|j: int| 0 <= j < n && keep(#[trigger] cues[j].id@) ==> !lex_lt(cues[i].id@, cues[j].id@)
    &&& forall|j: int| i < j < n && keep(#[trigger] cues[j].id@) ==> cues[j].id@ != cues[i].id@
}

/// The earliest of the cues `keep` selects, the first of equals.
pub open spec fn min_cue(cues: Seq<Cue>, keep: spec_fn(Seq<u32>) -> bool) -> Option<int> {
    if (exists|i: int| is_first_min(cues, keep, i, cues.len() as int)) {
        Some(choose|i: int| is_first_min(cues, keep, i, cues.len() as int))
    } else {
        None
    }
}

/// The latest of the cues `keep` selects, the last of equals.
pub open spec fn max_cue(cues: Seq<Cue>, keep: spec_fn(Seq<u32>) -> bool) -> Option<int> {
    if (exists|i: int| is_last_max(cues, keep, i, cues.len() as int)) {
        Some(choose|i: int| is_last_max(cues, keep, i, cues.len() as int))
    } else {
        None
    }
}

/// `min_cue` is the one first earliest cue.
pub proof fn lemma_min_cue(cues: Seq<Cue>, keep: spec_fn(Seq<u32>) -> bool, i: int)
    requires
        is_first_min(cues, keep, i, cues.len() as int),
    ensures
        min_cue(cues, keep) == Some(i),
{
    let k = choose|k: int| is_first_min(cues, keep, k, cues.len() as int);
    if i != k && cues[i].id@ != cues[k].id@ {
        lemma_lex_total(cues[i].id@, cues[k].id@);
    }
}

/// `max_cue` is the one last latest cue.
pub proof fn lemma_max_cue(cues: Seq<Cue>, keep: spec_fn(Seq<u32>) -> bool, i: int)
    requires
        is_last_max(cues, keep, i, cues.len() as int),
    ensures
        max_cue(cues, keep) == Some(i),
{
    let k = choose|k: int| is_last_max(cues, keep, k, cues.len() as int);
    if i != k && cues[i].id@ != cues[k].id@ {
        lemma_lex_total(cues[i].id@, cues[k].id@);
    }
}

/// One more cue, selected, considered for the earliest.
proof fn lemma_min_step(cues: Seq<Cue>, keep: spec_fn(Seq<u32>) -> bool, b: int, i: int)
    requires
        is_first_min(cues, keep, b, i),
        i < cues.len(),
        keep(cues[i].id@),
    ensures
        lex_lt(cues[i].id@, cues[b].id@) ==> is_first_min(cues, keep, i, i + 1),
        !lex_lt(cues[i].id@, cues[b].id@) ==> is_first_min(cues, keep, b, i + 1),
{
    lemma_lex_irreflexive(cues[i].id@);
    if lex_lt(cues[i].id@, cues[b].id@) {
        assert forall|j: int| 0 <= j < i + 1 && keep(#[trigger] cues[j].id@) implies !lex_lt(
            cues[j].id@,
            cues[i].id@,
        ) by {
            if j < i && lex_lt(cues[j].id@, cues[i].id@) {
                lemma_lex_transitive(cues[j].id@, cues[i].id@, cues[b].id@);
            }
        }
    }
}

/// One more cue, selected, considered for the latest.
proof fn lemma_max_step(cues: Seq<Cue>, keep: spec_fn(Seq<u32>) -> bool, b: int, i: int)
    requires
        is_last_max(cues, keep, b, i),
        i < cues.len(),
        keep(cues[i].id@),
    ensures
        !lex_lt(cues[i].id@, cues[b].id@) ==> is_last_max(cues, keep, i, i + 1),
        lex_lt(cues[i].id@, cues[b].id@) ==> is_last_max(cues, keep, b, i + 1),
{
    lemma_lex_irreflexive(cues[i].id@);
    lemma_lex_asymmetric(cues[i].id@, cues[b].id@);
    if !lex_lt(cues[i].id@, cues[b].id@) {
        assert forall|j: int| 0 <= j < i + 1 && keep(#[trigger] cues[j].id@) implies !lex_lt(
            cues[i].id@,
            cues[j].id@,
        ) by {
            if j < i && lex_lt(cues[i].id@, cues[j].id@) {
                if cues[i].id@ != cues[b].id@ {
                    lemma_lex_total(cues[i].id@, cues[b].id@);
                    lemma_lex_transitive(cues[b].id@, cues[i].id@, cues[j].id@);
                }
            }
        }
    }
}

/// The view of an optional cue id.
pub open spec fn opt_view(c: Option<&CueId>) -> Option<Seq<u32>> {
    match c {
        Some(x) => Some(x@),
        None => None,
    }
}

/// The view of an optional owned cue id.
pub open spec fn opt_id_view(c: Option<CueId>) -> Option<Seq<u32>> {
    match c {
        Some(x) => Some(x@),
        None => None,
    }
}

/// The earliest (first of equals) or latest (last of equals) of the cues
/// strictly between `lo` and `hi`, where given.
fn select_cue(cues: &[Cue], lo: Option<&CueId>, hi: Option<&CueId>, latest: bool) -> (r: Option<
    usize,
>)
    ensures
        r matches Some(k) ==> k < cues@.len(),
        latest ==> (match r {
            Some(k) => max_cue(cues@, window(opt_view(lo), opt_view(hi))) == Some(k as int),
            None => max_cue(cues@, window(opt_view(lo), opt_view(hi))) is None,
        }),
        !latest ==> (match r {
            Some(k) => min_cue(cues@, window(opt_view(lo), opt_view(hi))) == Some(k as int),
            None => min_cue(cues@, window(opt_view(lo), opt_view(hi))) is None,
        }),
{
    let ghost keep = window(opt_view(lo), opt_view(hi));
    let n = cues.len();
    let mut best: Option<usize> = None;
    for i in 0..n
        invariant
            n == cues@.len(),
            keep == window(opt_view(lo), opt_view(hi)),
            best is None ==> forall|j: int| 0 <= j < i ==> !keep(#[trigger] cues@[j].id@),
            best matches Some(b) ==> (if latest {
                is_last_max(cues@, keep, b as int, i as int)
            } else {
                is_first_min(cues@, keep, b as int, i as int)
            }),
    {
        let c = &cues[i];
        let selected = (match lo {
            Some(l) => l.precedes(&c.id),
            None => true,
        }) && (match hi {
            Some(h) => c.id.precedes(h),
            None => true,
        });
        assert(selected == keep(cues@[i as int].id@));
        if selected {
            match best {
                None => {
                    proof {
                        lemma_lex_irreflexive(c.id@);
                    }
                    best = Some(i);
                },
                Some(b) => {
                    let earlier = c.id.precedes(&cues[b].id);
                    proof {
                        if latest {
                            lemma_max_step(cues@, keep, b as int, i as int);
                        } else {
                            lemma_min_step(cues@, keep, b as int, i as int);
                        }
                    }
                    if latest != earlier {
                        best = Some(i);
                    }
                },
            }
        }
    }
    match best {
        Some(b) => {
            proof {
                if latest {
                    lemma_max_cue(cues@, keep, b as int);
                } else {
                    lemma_min_cue(cues@, keep, b as int);
                }
            }
        },
        None => {},
    }
    best
}

/// The fade starts as (cue id, start time) pairs.
pub open spec fn starts_view(s: Seq<(CueId, u64)>) -> Seq<(Seq<u32>, u64)> {
    s.map_values(|e: (CueId, u64)| (e.0@, e.1))
}

/// The index of the first start of the cue with this id.
pub open spec fn start_index(s: Seq<(Seq<u32>, u64)>, id: Seq<u32>) -> Option<int> {
    if (exists|i: int|
                0 <= i < s.len() && #[trigger] s[i].0 == id && forall|j: int|
                    0 <= j < i ==> #[trigger] s[j].0 != id) {
        Some(
            choose|i: int|
                0 <= i < s.len() && #[trigger] s[i].0 == id && forall|j: int|
                    0 <= j < i ==> #[trigger] s[j].0 != id,
        )
    } else {
        None
    }
}

/// Records that the cue with this id started fading at `t`: in place of its
/// earlier start where it has one, else as a new last start.
pub open spec fn record_start(s: Seq<(Seq<u32>, u64)>, id: Seq<u32>, t: u64) -> Seq<(Seq<u32>, u64)> {
    match start_index(s, id) {
        Some(i) => s.update(i, (id, t)),
        None => s.push((id, t)),
    }
}

/// Time passed from `start` to `now`, or none if `now` is earlier.
pub open spec fn elapsed(start: u64, now: u64) -> int {
    if now >= start {
        now - start
    } else {
        0
    }
}

/// How far a cue's fade has gone, in milliseconds: `elapsed` of `total`.
#[derive(Debug, Clone, Copy, PartialEq, Eq, Structural)]
pub enum FadeProgress {
    In { elapsed: u64, total: u64 },
    Out { elapsed: u64, total: u64 },
}

/// The fade progress of the cue with id `id` in `q` at time `now`.
pub open spec fn fade_progress(q: Sequence, id: Seq<u32>, now: u64) -> Option<FadeProgress> {
    let ins = starts_view(q.cue_fade_in_starts@);
    let outs = starts_view(q.cue_fade_out_starts@);
    let in_progress = match (start_index(ins, id), cue_index(q.cues@, id)) {
        (Some(k), Some(i)) => if q.cues@[i].fade_in_time > 0 {
            Some(FadeProgress::In { elapsed: elapsed(ins[k].1, now) as u64, total: q.cues@[i].fade_in_time })
        } else {
            None
        },
        _ => None,
    };
    match in_progress {
        Some(p) => Some(p),
        None => match (start_index(outs, id), cue_index(q.cues@, id)) {
            (Some(k), Some(i)) => if q.cues@[i].fade_out_time > 0 {
                Some(FadeProgress::Out { elapsed: elapsed(outs[k].1, now) as u64, total: q.cues@[i].fade_out_time })
            } else {
                None
            },
            _ => None,
        },
    }
}

/// Records a fade start, as [record_start] describes.
fn record_fade_start(starts: &mut Vec<(CueId, u64)>, id: &CueId, t: u64)
    ensures
        starts_view(final(starts)@) == record_start(starts_view(old(starts)@), id@, t),
{
    let n = starts.len();
    let ghost sv = starts_view(starts@);
    for i in 0..n
        invariant
            n == starts@.len(),
            starts@ == old(starts)@,
            sv == starts_view(starts@),
            forall|j: int| 0 <= j < i ==> #[trigger] sv[j].0 != id@,
    {
        if starts[i].0.same(id) {
            proof {
                let k = choose|k: int|
                    0 <= k < sv.len() && #[trigger] sv[k].0 == id@ && forall|j: int|
                        0 <= j < k ==> #[trigger] sv[j].0 != id@;
                assert(sv[i as int].0 == id@);
                assert(0 <= k < sv.len() && sv[k].0 == id@);
                if k < i {
                    assert(sv[k].0 != id@);
                }
                if i < k {
                    assert(sv[i as int].0 != id@);
                }
            }
            starts.set(i, (id.duplicate(), t));
            assert(starts_view(starts@) =~= record_start(sv, id@, t));
            return ;
        }
    }
    proof {
        if start_index(sv, id@) is Some {
            let w = choose|w: int| 0 <= w < sv.len() && #[trigger] sv[w].0 == id@;
            assert(sv[w].0 != id@);
        }
    }
    starts.push((id.duplicate(), t));
    assert(starts_view(starts@) =~= record_start(sv, id@, t));
}

impl Sequence {
    /// The index of the current cue, if the current id names a cue.
    pub open spec fn current_index(self) -> Option<int> {
        match self.current_cue {
            Some(id) => cue_index(self.cues@, id@),
            None => None,
        }
    }

    /// An empty sequence with no current cue.
    pub fn create(id: ObjectId, pool_id: PoolId, name: String) -> (r: Sequence)
        ensures
            r.id == id,
            r.pool_id == pool_id,
            r.name == name,
            r.cues@.len() == 0,
            r.current_cue is None,
            r.cue_fade_in_starts@.len() == 0,
            r.cue_fade_out_starts@.len() == 0,
    {
        Sequence {
            name,
            id,
            pool_id,
            cues: Vec::new(),
            current_cue: None,
            cue_fade_in_starts: Vec::new(),
            cue_fade_out_starts: Vec::new(),
        }
    }

    /// The index of the first cue with this id.
    fn cue_position(&self, id: &CueId) -> (r: Option<usize>)
        ensures
            r matches Some(k) ==> k < self.cues@.len(),
            match r {
                Some(k) => cue_index(self.cues@, id@) == Some(k as int),
                None => cue_index(self.cues@, id@) is None,
            },
    {
        let n = self.cues.len();
        for i in 0..n
            invariant
                n == self.cues@.len(),
                forall|j: int| 0 <= j < i ==> #[trigger] self.cues@[j].id@ != id@,
        {
            if self.cues[i].id.same(id) {
                proof {
                    let cs = self.cues@;
                    let k = choose|k: int|
                        0 <= k < cs.len() && #[trigger] cs[k].id@ == id@ && forall|j: int|
                            0 <= j < k ==> #[trigger] cs[j].id@ != id@;
                    assert(cs[i as int].id@ == id@);
                    assert(0 <= k < cs.len() && cs[k].id@ == id@);
                    if k < i {
                        assert(cs[k].id@ != id@);
                    }
                    if i < k {
                        assert(cs[i as int].id@ != id@);
                    }
                }
                return Some(i);
            }
        }
        proof {
            let cs = self.cues@;
            if cue_index(cs, id@) is Some {
                let w = choose|w: int| 0 <= w < cs.len() && #[trigger] cs[w].id@ == id@;
                assert(cs[w].id@ != id@);
            }
        }
        None
    }

    /// The cue with this id, if the sequence has one.
    pub fn cue(&self, id: &CueId) -> (r: Option<&Cue>)
        ensures
            match cue_index(self.cues@, id@) {
                Some(i) => r == Some(&self.cues@[i]),
                None => r is None,
            },
    {
        match self.cue_position(id) {
            Some(i) => Some(&self.cues[i]),
            None => None,
        }
    }

    /// All cues.
    pub fn cues(&self) -> (r: &[Cue])
        ensures
            r@ == self.cues@,
    {
        self.cues.as_slice()
    }

    /// The earliest cue, if there is one.
    pub fn first_cue(&self) -> (r: Option<&Cue>)
        ensures
            match min_cue(self.cues@, window(None, None)) {
                Some(i) => r == Some(&self.cues@[i]),
                None => r is None,
            },
    {
        match select_cue(self.cues.as_slice(), None, None, false) {
            Some(i) => Some(&self.cues[i]),
            None => None,
        }
    }

    /// The latest cue, if there is one.
    pub fn last_cue(&self) -> (r: Option<&Cue>)
        ensures
            match max_cue(self.cues@, window(None, None)) {
                Some(i) => r == Some(&self.cues@[i]),
                None => r is None,
            },
    {
        match select_cue(self.cues.as_slice(), None, None, true) {
            Some(i) => Some(&self.cues[i]),
            None => None,
        }
    }

    /// The latest cue before `id`, if there is one.
    pub fn cue_before(&self, id: &CueId) -> (r: Option<&Cue>)
        ensures
            match max_cue(self.cues@, window(None, Some(id@))) {
                Some(i) => r == Some(&self.cues@[i]),
                None => r is None,
            },
    {
        match select_cue(self.cues.as_slice(), None, Some(id), true) {
            Some(i) => Some(&self.cues[i]),
            None => None,
        }
    }

    /// The earliest cue after `id`, if there is one.
    pub fn cue_after(&self, id: &CueId) -> (r: Option<&Cue>)
        ensures
            match min_cue(self.cues@, window(Some(id@), None)) {
                Some(i) => r == Some(&self.cues@[i]),
                None => r is None,
            },
    {
        match select_cue(self.cues.as_slice(), Some(id), None, false) {
            Some(i) => Some(&self.cues[i]),
            None => None,
        }
    }

    /// The current cue, if the current id names a cue.
    pub fn current_cue(&self) -> (r: Option<&Cue>)
        ensures
            match self.current_index() {
                Some(i) => r == Some(&self.cues@[i]),
                None => r is None,
            },
    {
        match &self.current_cue {
            Some(id) => self.cue(id),
            None => None,
        }
    }

    /// The cue before the current one; the latest cue where there is no
    /// current cue.
    pub fn previous_cue(&self) -> (r: Option<&Cue>)
        ensures
            match (match self.current_index() {
                None => max_cue(self.cues@, window(None, None)),
                Some(_) => max_cue(self.cues@, window(None, Some(self.current_cue.unwrap()@))),
            }) {
                Some(i) => r == Some(&self.cues@[i]),
                None => r is None,
            },
    {
        if self.current_cue().is_none() {
            return self.last_cue();
        }
        match &self.current_cue {
            Some(id) => self.cue_before(id),
            None => None,
        }
    }

    /// The cue after the current one; the earliest cue where there is no
    /// current cue.
    pub fn next_cue(&self) -> (r: Option<&Cue>)
        ensures
            match (match self.current_index() {
                None => min_cue(self.cues@, window(None, None)),
                Some(_) => min_cue(self.cues@, window(Some(self.current_cue.unwrap()@), None)),
            }) {
                Some(i) => r == Some(&self.cues@[i]),
                None => r is None,
            },
    {
        if self.current_cue().is_none() {
            return self.first_cue();
        }
        match &self.current_cue {
            Some(id) => self.cue_after(id),
            None => None,
        }
    }

    /// Makes `id` the current cue at time `now`. The cue that was current
    /// starts fading out, and the new current cue fading in, where their fade
    /// times are not zero.
    pub fn set_current_cue(&mut self, id: Option<CueId>, now: u64)
        ensures
            final(self).cues@ == old(self).cues@,
            opt_id_view(final(self).current_cue) == opt_id_view(id),
            starts_view(final(self).cue_fade_out_starts@) == (match old(self).current_index() {
                Some(i) => if old(self).cues@[i].fade_out_time > 0 {
                    record_start(
                        starts_view(old(self).cue_fade_out_starts@),
                        old(self).cues@[i].id@,
                        now,
                    )
                } else {
                    starts_view(old(self).cue_fade_out_starts@)
                },
                None => starts_view(old(self).cue_fade_out_starts@),
            }),
            starts_view(final(self).cue_fade_in_starts@) == (match final(self).current_index() {
                Some(k) => if old(self).cues@[k].fade_in_time > 0 {
                    record_start(
                        starts_view(old(self).cue_fade_in_starts@),
                        old(self).cues@[k].id@,
                        now,
                    )
                } else {
                    starts_view(old(self).cue_fade_in_starts@)
                },
                None => starts_view(old(self).cue_fade_in_starts@),
            }),
            final(self).name == old(self).name,
            final(self).id == old(self).id,
            final(self).pool_id == old(self).pool_id,
    {
        let old_pos = match &self.current_cue {
            Some(cur) => self.cue_position(cur),
            None => None,
        };
        match old_pos {
            Some(i) => {
                if self.cues[i].fade_out_time > 0 {
                    let cid = self.cues[i].id.duplicate();
                    record_fade_start(&mut self.cue_fade_out_starts, &cid, now);
                }
            },
            None => {},
        }
        self.current_cue = id;
        let new_pos = match &self.current_cue {
            Some(cur) => self.cue_position(cur),
            None => None,
        };
        match new_pos {
            Some(k) => {
                if self.cues[k].fade_in_time > 0 {
                    let cid = self.cues[k].id.duplicate();
                    record_fade_start(&mut self.cue_fade_in_starts, &cid, now);
                }
            },
            None => {},
        }
    }

    /// Whether some cue is fading in or out.
    pub fn has_fading_cue(&self) -> (r: bool)
        ensures
            r == (self.cue_fade_in_starts@.len() > 0 || self.cue_fade_out_starts@.len() > 0),
    {
        !self.cue_fade_in_starts.is_empty() || !self.cue_fade_out_starts.is_empty()
    }

    /// How far the cue's fade has gone at time `now`: a fade in where one is
    /// recorded for the cue and the cue has a fade-in time, else a fade out
    /// where one is recorded and the cue has a fade-out time. The fraction
    /// itself is `elapsed / total`, capped at one (and counted down from one
    /// for a fade out).
    pub fn cue_fade_progress(&self, id: &CueId, now: u64) -> (r: Option<FadeProgress>)
        ensures
            r == fade_progress(*self, id@, now),
    {
        let cue = self.cue(id);
        if let Some(start) = Sequence::start_of(&self.cue_fade_in_starts, id) {
            if let Some(c) = cue {
                if c.fade_in_time > 0 {
                    let elapsed = if now >= start {
                        now - start
                    } else {
                        0
                    };
                    return Some(FadeProgress::In { elapsed, total: c.fade_in_time });
                }
            }
        }
        if let Some(start) = Sequence::start_of(&self.cue_fade_out_starts, id) {
            if let Some(c) = cue {
                if c.fade_out_time > 0 {
                    let elapsed = if now >= start {
                        now - start
                    } else {
                        0
                    };
                    return Some(FadeProgress::Out { elapsed, total: c.fade_out_time });
                }
            }
        }
        None
    }

    /// The cue is current or fading in or out.
    pub open spec fn is_active(self, id: Seq<u32>) -> bool {
        (self.current_cue matches Some(c) && c@ == id) || start_index(
            starts_view(self.cue_fade_in_starts@),
            id,
        ) is Some || start_index(starts_view(self.cue_fade_out_starts@), id) is Some
    }

    /// When the cue started fading, where a fade start is recorded for it.
    pub fn start_of(starts: &Vec<(CueId, u64)>, id: &CueId) -> (r: Option<u64>)
        ensures
            match start_index(starts_view(starts@), id@) {
                Some(k) => r == Some(starts_view(starts@)[k].1),
                None => r is None,
            },
    {
        let n = starts.len();
        let ghost sv = starts_view(starts@);
        for i in 0..n
            invariant
                n == starts@.len(),
                sv == starts_view(starts@),
                forall|j: int| 0 <= j < i ==> #[trigger] sv[j].0 != id@,
        {
            if starts[i].0.same(id) {
                proof {
                    let k = choose|k: int|
                        0 <= k < sv.len() && #[trigger] sv[k].0 == id@ && forall|j: int|
                            0 <= j < k ==> #[trigger] sv[j].0 != id@;
                    assert(sv[i as int].0 == id@);
                    if k < i {
                        assert(sv[k].0 != id@);
                    }
                    if i < k {
                        assert(sv[i as int].0 != id@);
                    }
                }
                return Some(starts[i].1);
            }
        }
        proof {
            if start_index(sv, id@) is Some {
                let w = choose|w: int| 0 <= w < sv.len() && #[trigger] sv[w].0 == id@;
                assert(sv[w].0 != id@);
            }
        }
        None
    }

    /// The index of the latest cue before `id`, if there is one.
    pub fn position_before(&self, id: &CueId) -> (r: Option<usize>)
        ensures
            r matches Some(k) ==> k < self.cues@.len(),
            match r {
                Some(k) => max_cue(self.cues@, window(None, Some(id@))) == Some(k as int),
                None => max_cue(self.cues@, window(None, Some(id@))) is None,
            },
    {
        select_cue(self.cues.as_slice(), None, Some(id), true)
    }

    /// The index of the earliest cue after `id`, if there is one.
    pub fn position_after(&self, id: &CueId) -> (r: Option<usize>)
        ensures
            r matches Some(k) ==> k < self.cues@.len(),
            match r {
                Some(k) => min_cue(self.cues@, window(Some(id@), None)) == Some(k as int),
                None => min_cue(self.cues@, window(Some(id@), None)) is None,
            },
    {
        select_cue(self.cues.as_slice(), Some(id), None, false)
    }

    /// Whether a fade start is recorded for the cue.
    fn has_start(starts: &Vec<(CueId, u64)>, id: &CueId) -> (r: bool)
        ensures
            r == (start_index(starts_view(starts@), id@) is Some),
    {
        let n = starts.len();
        let ghost sv = starts_view(starts@);
        for i in 0..n
            invariant
                n == starts@.len(),
                sv == starts_view(starts@),
                forall|j: int| 0 <= j < i ==> #[trigger] sv[j].0 != id@,
        {
            if starts[i].0.same(id) {
                proof {
                    assert(sv[i as int].0 == id@);
                }
                return true;
            }
        }
        proof {
            if start_index(sv, id@) is Some {
                let w = choose|w: int| 0 <= w < sv.len() && #[trigger] sv[w].0 == id@;
                assert(sv[w].0 != id@);
            }
        }
        false
    }

    /// The cues that are current or fading in or out, in order.
    pub fn active_cues(&self) -> (r: Vec<&Cue>)
        ensures
            r@ == self.cues@.filter(|c: Cue| self.is_active(c.id@)).map_values(|c: Cue| &c),
    {
        let mut r: Vec<&Cue> = Vec::new();
        let n = self.cues.len();
        let ghost keep = |c: Cue| self.is_active(c.id@);
        for i in 0..n
            invariant
                n == self.cues@.len(),
                keep == (|c: Cue| self.is_active(c.id@)),
                r@ == self.cues@.subrange(0, i as int).filter(keep).map_values(|c: Cue| &c),
        {
            let c = &self.cues[i];
            let is_current = match &self.current_cue {
                Some(cur) => cur.same(&c.id),
                None => false,
            };
            let active = is_current || Self::has_start(&self.cue_fade_in_starts, &c.id)
                || Self::has_start(&self.cue_fade_out_starts, &c.id);
            proof {
                reveal(Seq::filter);
                let pre = self.cues@.subrange(0, i + 1);
                assert(pre.drop_last() =~= self.cues@.subrange(0, i as int));
                assert(active == keep(pre.last()));
            }
            if active {
                r.push(c);
            }
            assert(r@ =~= self.cues@.subrange(0, i + 1).filter(keep).map_values(|c: Cue| &c));
        }
        assert(self.cues@.subrange(0, n as int) =~= self.cues@);
        r
    }

    /// Drops, as of time `now`, the fade starts of cues whose fade is over
    /// (more time has passed than the fade takes) or that the sequence no
    /// longer has.
    pub fn update_fade_times(&mut self, now: u64)
        ensures
            final(self).cues@ == old(self).cues@,
            final(self).current_cue == old(self).current_cue,
            fades_updated(*old(self), *final(self), now),
    {
        let kept_in = self.kept_starts(&self.cue_fade_in_starts, now, true);
        let kept_out = self.kept_starts(&self.cue_fade_out_starts, now, false);
        self.cue_fade_in_starts = kept_in;
        self.cue_fade_out_starts = kept_out;
    }

    /// The fade starts whose fade goes on at time `now`.
    fn kept_starts(&self, starts: &Vec<(CueId, u64)>, now: u64, fade_in: bool) -> (r: Vec<(CueId, u64)>)
        ensures
            starts_view(r@) == starts_view(starts@).filter(continuing(self.cues@, now, fade_in)),
    {
        let ghost keep = continuing(self.cues@, now, fade_in);
        let mut r: Vec<(CueId, u64)> = Vec::new();
        let n = starts.len();
        let ghost sv = starts_view(starts@);
        for i in 0..n
            invariant
                n == starts@.len(),
                sv == starts_view(starts@),
                keep == continuing(self.cues@, now, fade_in),
                starts_view(r@) == sv.subrange(0, i as int).filter(keep),
        {
            let (id, start) = (&starts[i].0, starts[i].1);
            let goes_on = match self.cue(id) {
                Some(cue) => {
                    let passed = if now >= start {
                        now - start
                    } else {
                        0
                    };
                    let total = if fade_in {
                        cue.fade_in_time
                    } else {
                        cue.fade_out_time
                    };
                    passed <= total
                },
                None => false,
            };
            proof {
                reveal(Seq::filter);
                let pre = sv.subrange(0, i + 1);
                assert(pre.drop_last() =~= sv.subrange(0, i as int));
                assert(pre.last() == sv[i as int]);
                assert(goes_on == keep(sv[i as int]));
            }
            if goes_on {
                r.push((id.duplicate(), start));
            }
            assert(starts_view(r@) =~= sv.subrange(0, i + 1).filter(keep));
        }
        assert(sv.subrange(0, n as int) =~= sv);
        r
    }
}

/// Keeps the fades that go on at time `now`.
pub open spec fn continuing(cues: Seq<Cue>, now: u64, fade_in: bool) -> spec_fn((Seq<u32>, u64)) -> bool {
    |e: (Seq<u32>, u64)| fade_continues(cues, e, now, fade_in)
}

/// `new` is `old` as of time `now`, with the fades that are over dropped.
pub open spec fn fades_updated(old: Sequence, new: Sequence, now: u64) -> bool {
    &&& new.cues@ == old.cues@
    &&& new.current_cue == old.current_cue
    &&& starts_view(new.cue_fade_in_starts@) == starts_view(old.cue_fade_in_starts@).filter(
        continuing(old.cues@, now, true),
    )
    &&& starts_view(new.cue_fade_out_starts@) == starts_view(old.cue_fade_out_starts@).filter(
        continuing(old.cues@, now, false),
    )
    &&& new.name == old.name
    &&& new.id == old.id
    &&& new.pool_id == old.pool_id
}

/// Filtering twice by the same test is filtering once.
pub proof fn lemma_filter_twice<A>(s: Seq<A>, p: spec_fn(A) -> bool)
    ensures
        s.filter(p).filter(p) == s.filter(p),
    decreases s.len(),
{
    reveal(Seq::filter);
    if s.len() > 0 {
        lemma_filter_twice(s.drop_last(), p);
        let f = s.drop_last().filter(p);
        if p(s.last()) {
            assert(f.push(s.last()).drop_last() =~= f);
        }
    }
}

/// Updating the fades twice at the same time is updating them once.
pub proof fn lemma_fades_updated_twice(a: Sequence, b: Sequence, c: Sequence, now: u64)
    requires
        fades_updated(a, b, now),
        fades_updated(b, c, now),
    ensures
        fades_updated(a, c, now),
{
    lemma_filter_twice(starts_view(a.cue_fade_in_starts@), continuing(a.cues@, now, true));
    lemma_filter_twice(starts_view(a.cue_fade_out_starts@), continuing(a.cues@, now, false));
}

/// A fade started at `e.1` for cue `e.0` goes on at time `now`: the sequence
/// has the cue and no more time has passed than its fade takes.
pub open spec fn fade_continues(cues: Seq<Cue>, e: (Seq<u32>, u64), now: u64, fade_in: bool) -> bool {
    match cue_index(cues, e.0) {
        Some(i) => elapsed(e.1, now) <= (if fade_in {
            cues[i].fade_in_time
        } else {
            cues[i].fade_out_time
        }),
        None => false,
    }
}

} // verus!
