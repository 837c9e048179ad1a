//! What each processing frame does with the executors: it updates the fades
//! of the sequences they play, and decides, cue by cue, what goes to the
//! output: a cue as it is, or a fade between two cues.
use vstd::prelude::*;

use crate::object::{find_id, ids_unique, lemma_find_id, AnyObject, ObjectContainer, ObjectId};
use crate::sequence::{elapsed, fades_updated, lemma_fades_updated_twice, max_cue, min_cue, start_index, starts_view, window, Sequence};

verus! {

/// What goes to the output for one active cue of a sequence an executor
/// plays.
#[derive(Debug, Clone, Copy, PartialEq, Eq, Structural)]
pub enum CueStep {
    /// A fade from cue `from` to cue `to` (indices into the sequence's cues;
    /// none stands for no cue), `elapsed` milliseconds into `duration`.
    Fade { sequence: ObjectId, from: Option<usize>, to: Option<usize>, elapsed: u64, duration: u64 },
    /// The cue as it is.
    Play { sequence: ObjectId, cue: usize },
}

/// An optional index as an integer.
pub open spec fn opt_int(o: Option<usize>) -> Option<int> {
    match o {
        Some(i) => Some(i as int),
        None => None,
    }
}

/// `step` is what goes to the output for cue `i` of sequence `q` at time
/// `now`: a fade in from the cue before where the cue fades in, else a fade
/// out to the cue after where it fades out, else the cue itself.
pub open spec fn is_step(q: Sequence, sid: ObjectId, i: int, now: u64, step: CueStep) -> bool {
    let id = q.cues@[i].id@;
    let ins = starts_view(q.cue_fade_in_starts@);
    let outs = starts_view(q.cue_fade_out_starts@);
    match start_index(ins, id) {
        Some(k) => step matches CueStep::Fade { sequence, from, to, elapsed: e, duration } && sequence == sid
            && opt_int(from) == max_cue(q.cues@, window(None, Some(id))) && to == Some(i as usize) && e
            == elapsed(ins[k].1, now) && duration == q.cues@[i].fade_in_time,
        None => match start_index(outs, id) {
            Some(k) => step matches CueStep::Fade { sequence, from, to, elapsed: e, duration } && sequence == sid
                && from == Some(i as usize) && opt_int(to) == min_cue(q.cues@, window(Some(id), None))
                && e == elapsed(outs[k].1, now) && duration == q.cues@[i].fade_out_time,
            None => step == CueStep::Play { sequence: sid, cue: i as usize },
        },
    }
}

/// The steps of the first `n` cues of a sequence: one for each active cue,
/// in order.
pub open spec fn sequence_steps(q: Sequence, sid: ObjectId, n: int, now: u64, steps: Seq<CueStep>) -> bool
    decreases n,
{
    if n <= 0 {
        steps.len() == 0
    } else if q.is_active(q.cues@[n - 1].id@) {
        steps.len() > 0 && sequence_steps(q, sid, n - 1, now, steps.drop_last()) && is_step(
            q,
            sid,
            n - 1,
            now,
            steps.last(),
        )
    } else {
        sequence_steps(q, sid, n - 1, now, steps)
    }
}

/// The sequence an executor at index `e` plays, where it is on and plays
/// one.
pub open spec fn played_sequence(objs: Seq<AnyObject>, e: int) -> Option<(ObjectId, Sequence)> {
    match objs[e] {
        AnyObject::Executor(x) => if x.is_on {
            match x.sequence_id {
                Some(sid) => match find_id(objs, sid) {
                    Some(k) => match objs[k] {
                        AnyObject::Sequence(q) => Some((sid, q)),
                        _ => None,
                    },
                    None => None,
                },
                None => None,
            }
        } else {
            None
        },
        _ => None,
    }
}

/// The steps of the executors among the first `n` objects, executor by
/// executor.
pub open spec fn executor_steps_upto(objs: Seq<AnyObject>, n: int, now: u64, steps: Seq<CueStep>) -> bool
    decreases n,
{
    if n <= 0 {
        steps.len() == 0
    } else {
        match played_sequence(objs, n - 1) {
            Some((sid, q)) => exists|k: int|
                0 <= k <= steps.len() && executor_steps_upto(objs, n - 1, now, steps.subrange(0, k))
                    && #[trigger] sequence_steps(q, sid, q.cues@.len() as int, now, steps.subrange(k, steps.len() as int)),
            None => executor_steps_upto(objs, n - 1, now, steps),
        }
    }
}

/// The steps for the cues of one sequence.
fn sequence_cue_steps(q: &Sequence, sid: ObjectId, now: u64) -> (r: Vec<CueStep>)
    ensures
        sequence_steps(*q, sid, q.cues@.len() as int, now, r@),
{
    let mut r: Vec<CueStep> = Vec::new();
    let n = q.cues.len();
    for i in 0..n
        invariant
            n == q.cues@.len(),
            sequence_steps(*q, sid, i as int, now, r@),
    {
        let id = &q.cues[i].id;
        let is_current = match &q.current_cue {
            Some(c) => c.same(id),
            None => false,
        };
        let fade_in = Sequence::start_of(&q.cue_fade_in_starts, id);
        let fade_out = Sequence::start_of(&q.cue_fade_out_starts, id);
        let ghost before = r@;
        match fade_in {
            Some(start) => {
                let from = q.position_before(id);
                r.push(
                    CueStep::Fade {
                        sequence: sid,
                        from,
                        to: Some(i),
                        elapsed: if now >= start {
                            now - start
                        } else {
                            0
                        },
                        duration: q.cues[i].fade_in_time,
                    },
                );
            },
            None => match fade_out {
                Some(start) => {
                    let to = q.position_after(id);
                    r.push(
                        CueStep::Fade {
                            sequence: sid,
                            from: Some(i),
                            to,
                            elapsed: if now >= start {
                                now - start
                            } else {
                                0
                            },
                            duration: q.cues[i].fade_out_time,
                        },
                    );
                },
                None => {
                    if is_current {
                        r.push(CueStep::Play { sequence: sid, cue: i });
                    }
                },
            },
        }
        proof {
            if r@.len() > before.len() {
                assert(r@.drop_last() =~= before);
            }
        }
    }
    r
}

/// Updates, as of time `now`, the fades of the sequences the executors play
/// (each executor's sequence, whether the executor is on or not).
pub fn update_executor_fades(objects: &mut ObjectContainer, now: u64)
    ensures
        final(objects).objects().len() == old(objects).objects().len(),
        forall|k: int|
            0 <= k < old(objects).objects().len() ==> #[trigger] updated_or_same(
                old(objects).objects(),
                final(objects).objects()[k],
                k,
                now,
            ),
{
    let n = objects.len();
    let ghost objs0 = objects.objects();
    objects.assert_unique();
    let mut e: usize = 0;
    while e < n
        invariant
            e <= n,
            n == objs0.len(),
            objects.objects().len() == n,
            ids_unique(objs0),
            forall|k: int| 0 <= k < n ==> #[trigger] objects.objects()[k].obj_id() == objs0[k].obj_id(),
            forall|k: int| 0 <= k < n && objs0[k] is Executor ==> #[trigger] objects.objects()[k] == objs0[k],
            forall|k: int| 0 <= k < n ==> #[trigger] updated_upto(objs0, objects.objects()[k], k, e as int, now),
            objs0 == old(objects).objects(),
        decreases n - e,
    {
        let ghost start = objects.objects();
        let sid = match objects.at(e) {
            AnyObject::Executor(x) => x.sequence_id,
            _ => None,
        };
        proof {
            assert(updated_upto(objs0, start[e as int], e as int, e as int, now));
            if sid is Some {
                assert(start[e as int] == objs0[e as int]);
            }
        }
        match sid {
            Some(id) => {
                objects.assert_unique();
                match objects.position_of_id(id) {
                    Some(j) => {
                        let ghost cur = objects.objects();
                        proof {
                            lemma_find_id(objs0, j as int);
                        }
                        objects.update_sequence_fades_at(j, now);
                        proof {
                            let post = objects.objects();
                            assert forall|k: int| 0 <= k < n implies #[trigger] updated_upto(objs0, post[k], k, e + 1, now) by {
                                assert(updated_upto(objs0, cur[k], k, e as int, now));
                                if k == j {
                                    match objs0[k] {
                                        AnyObject::Sequence(q0) => {
                                            let q1 = match cur[k] {
                                                AnyObject::Sequence(q) => q,
                                                _ => q0,
                                            };
                                            let q2 = match post[k] {
                                                AnyObject::Sequence(q) => q,
                                                _ => q0,
                                            };
                                            if q1 != q0 {
                                                lemma_fades_updated_twice(q0, q1, q2, now);
                                            }
                                            assert(cur[k].obj_id() == objs0[k].obj_id());
                                            assert(plays(objs0, e as int, k));
                                        },
                                        _ => {},
                                    }
                                } else {
                                    assert(post[k] == cur[k]);
                                    if plays(objs0, e as int, k) {
                                        assert(objs0[k].obj_id() == id);
                                    }
                                }
                            }
                        }
                    },
                    None => {
                        proof {
                            assert forall|k: int| 0 <= k < n implies #[trigger] updated_upto(objs0, objects.objects()[k], k, e + 1, now) by {
                                assert(updated_upto(objs0, objects.objects()[k], k, e as int, now));
                                if plays(objs0, e as int, k) {
                                    assert(objects.objects()[k].obj_id() == id);
                                }
                            }
                        }
                    },
                }
            },
            None => {
                proof {
                    assert forall|k: int| 0 <= k < n implies #[trigger] updated_upto(objs0, objects.objects()[k], k, e + 1, now) by {
                        assert(updated_upto(objs0, objects.objects()[k], k, e as int, now));
                    }
                }
            },
        }
        e += 1;
    }
    proof {
        assert forall|k: int| 0 <= k < n implies #[trigger] updated_or_same(objs0, objects.objects()[k], k, now) by {
            assert(updated_upto(objs0, objects.objects()[k], k, n as int, now));
        }
    }
}

/// The executor at index `e` plays (on or off) the sequence at index `k`.
pub open spec fn plays(objs: Seq<AnyObject>, e: int, k: int) -> bool {
    objs[e] matches AnyObject::Executor(x) && x.sequence_id matches Some(sid) && objs[k] is Sequence
        && objs[k].obj_id() == sid
}

/// The object at `k` has had its fades updated if an executor before index
/// `upto` plays it, and is as it was otherwise.
pub open spec fn updated_upto(objs: Seq<AnyObject>, now_obj: AnyObject, k: int, upto: int, now: u64) -> bool {
    if exists|e: int| 0 <= e < upto && #[trigger] plays(objs, e, k) {
        match (objs[k], now_obj) {
            (AnyObject::Sequence(q0), AnyObject::Sequence(q1)) => fades_updated(q0, q1, now),
            _ => false,
        }
    } else {
        now_obj == objs[k]
    }
}

/// The object at `k` has had its fades updated if an executor plays it, and
/// is as it was otherwise.
pub open spec fn updated_or_same(objs: Seq<AnyObject>, now_obj: AnyObject, k: int, now: u64) -> bool {
    updated_upto(objs, now_obj, k, objs.len() as int, now)
}

/// What goes to the output for the executors that are on, executor by
/// executor and cue by cue; and whether some cue is fading (in or out).
pub fn executor_steps(objects: &ObjectContainer, now: u64) -> (r: (Vec<CueStep>, bool))
    ensures
        executor_steps_upto(objects.objects(), objects.objects().len() as int, now, r.0@),
        r.1 == exists|j: int| 0 <= j < r.0@.len() && #[trigger] r.0@[j] is Fade,
{
    let n = objects.len();
    let mut steps: Vec<CueStep> = Vec::new();
    for e in 0..n
        invariant
            n == objects.objects().len(),
            executor_steps_upto(objects.objects(), e as int, now, steps@),
    {
        let o = objects.at(e);
        let played = match o {
            AnyObject::Executor(x) => {
                if x.is_on {
                    match x.sequence_id {
                        Some(sid) => match objects.sequence(sid) {
                            Some(q) => Some((sid, q)),
                            None => None,
                        },
                        None => None,
                    }
                } else {
                    None
                }
            },
            _ => None,
        };
        match played {
            Some((sid, q)) => {
                let ghost before = steps@;
                let mut more = sequence_cue_steps(q, sid, now);
                let ghost added = more@;
                steps.append(&mut more);
                proof {
                    let k = before.len() as int;
                    assert(steps@.subrange(0, k) =~= before);
                    assert(steps@.subrange(k, steps@.len() as int) =~= added);
                }
            },
            None => {},
        }
    }
    let mut fading = false;
    let m = steps.len();
    for j in 0..m
        invariant
            m == steps@.len(),
            fading == exists|i: int| 0 <= i < j && #[trigger] steps@[i] is Fade,
    {
        if let CueStep::Fade { .. } = steps[j] {
            fading = true;
        }
    }
    (steps, fading)
}

/// The time left to sleep in a frame of `frame` milliseconds of which
/// `elapsed` have passed.
pub fn frame_sleep(elapsed: u64, frame: u64) -> (r: u64)
    ensures
        r == if elapsed < frame {
            frame - elapsed
        } else {
            0
        },
{
    if elapsed < frame {
        frame - elapsed
    } else {
        0
    }
}

} // verus!
