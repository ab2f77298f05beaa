//! The ordering rules of the video work queue: which frames it works on,
//! and in what order.
use std::collections::{HashSet, VecDeque};
use vstd::prelude::*;

verus! {

broadcast use vstd::std_specs::hash::group_hash_axioms;

/// The encoding of a frame of video.
#[derive(Clone, Copy, Debug, PartialEq, Eq)]
pub enum FrameType {
    TelloH264,
    Png,
    /// Raw RGB, with its width and height.
    Rgb(u32, u32),
    H264,
}

/// The work a video source asks for.
#[derive(Clone, Copy, Debug, PartialEq, Eq)]
pub enum VideoTask {
    /// Should take an RGB image.
    Encode(FrameType),
    /// Should produce an RGB image.
    Decode(FrameType),
    /// From one frame type to another.
    Transcode(FrameType, FrameType),
    /// Any image will do: it is fed to the model that controls the drone.
    CV(FrameType),
    ShutDown,
}

/// A task with its image and the token of the source that sent it.
#[derive(Debug)]
pub struct VideoTaskFull {
    pub task: VideoTask,
    pub image_data: Vec<u8>,
    pub origin: usize,
}

impl VideoTaskFull {
    pub fn new(origin: usize, task: VideoTask, image_data: Vec<u8>) -> (r: Self)
        ensures
            r.origin == origin,
            r.task == task,
            r.image_data@ == image_data@,
    {
        VideoTaskFull { origin, task, image_data }
    }
}

/// Whether `origin` is the current video source.
pub fn is_current(origin: usize, curr_src: usize) -> (r: bool)
    ensures
        r == (origin == curr_src),
{
    origin == curr_src
}

/// The task to queue for a frame from `origin`: only the current video
/// source is served; with no source, or another one, nothing is queued.
pub fn send_to_queue(origin: usize, curr_src: Option<usize>, image_data: Vec<u8>, task: VideoTask) -> (r:
    Option<VideoTaskFull>)
    ensures
        curr_src == Some(origin) ==> (r matches Some(t) && t.origin == origin && t.task == task
            && t.image_data@ == image_data@),
        curr_src != Some(origin) ==> r is None,
{
    match curr_src {
        Some(token) => {
            if is_current(origin, token) {
                Some(VideoTaskFull::new(origin, task, image_data))
            } else {
                None
            }
        },
        None => None,
    }
}

/// The tasks kept when the events of `chrono` are culled, newest first, with
/// `seen` the sources already served in this round: of each source not yet
/// seen, only its most recent task is kept. The second part is the set of
/// sources seen afterwards.
pub open spec fn spec_cull(chrono: Seq<VideoTaskFull>, seen: Set<usize>) -> (Seq<VideoTaskFull>, Set<usize>)
    decreases chrono.len(),
{
    if chrono.len() == 0 {
        (Seq::empty(), seen)
    } else {
        let t = chrono.last();
        let rest = spec_cull(chrono.drop_last(), seen.insert(t.origin));
        (if seen.contains(t.origin) { rest.0 } else { seq![t] + rest.0 }, rest.1)
    }
}

/// No two tasks of `out` come from the same source.
pub open spec fn distinct_origins(out: Seq<VideoTaskFull>) -> bool {
    forall|k1: int, k2: int|
        0 <= k1 < k2 < out.len() ==> #[trigger] out[k1].origin != #[trigger] out[k2].origin
}

/// `x` is in `chrono`, and no later task of `chrono` comes from its source.
pub open spec fn latest_of_its_source(chrono: Seq<VideoTaskFull>, x: VideoTaskFull) -> bool {
    exists|i: int|
        0 <= i < chrono.len() && #[trigger] chrono[i] == x && forall|j: int|
            i < j < chrono.len() ==> #[trigger] chrono[j].origin != x.origin
}

/// Some task of `out` comes from `origin`.
pub open spec fn has_origin(out: Seq<VideoTaskFull>, origin: usize) -> bool {
    exists|k: int| 0 <= k < out.len() && #[trigger] out[k].origin == origin
}

proof fn lemma_cull_distinct_unseen(chrono: Seq<VideoTaskFull>, seen: Set<usize>)
    ensures
        distinct_origins(spec_cull(chrono, seen).0),
        forall|k: int|
            0 <= k < spec_cull(chrono, seen).0.len() ==> !seen.contains(
                #[trigger] spec_cull(chrono, seen).0[k].origin,
            ),
    decreases chrono.len(),
{
    if chrono.len() > 0 {
        let t = chrono.last();
        let seen2 = seen.insert(t.origin);
        let rest = spec_cull(chrono.drop_last(), seen2).0;
        lemma_cull_distinct_unseen(chrono.drop_last(), seen2);
        let out = spec_cull(chrono, seen).0;
        if !seen.contains(t.origin) {
            assert(out == seq![t] + rest);
            assert forall|k: int| 1 <= k < out.len() implies #[trigger] out[k] == rest[k - 1] by {}
            assert forall|k1: int, k2: int|
                0 <= k1 < k2 < out.len() implies #[trigger] out[k1].origin
                != #[trigger] out[k2].origin by {
                assert(out[k2] == rest[k2 - 1]);
                if k1 > 0 {
                    assert(out[k1] == rest[k1 - 1]);
                } else {
                    assert(!seen2.contains(rest[k2 - 1].origin));
                }
            }
            assert forall|k: int| 0 <= k < out.len() implies !seen.contains(#[trigger] out[k].origin) by {
                if k > 0 {
                    assert(out[k] == rest[k - 1]);
                    assert(!seen2.contains(rest[k - 1].origin));
                }
            }
        } else {
            assert forall|k: int| 0 <= k < out.len() implies !seen.contains(#[trigger] out[k].origin) by {
                assert(!seen2.contains(rest[k].origin));
            }
        }
    }
}

proof fn lemma_cull_latest(chrono: Seq<VideoTaskFull>, seen: Set<usize>)
    ensures
        forall|k: int|
            0 <= k < spec_cull(chrono, seen).0.len() ==> latest_of_its_source(
                chrono,
                #[trigger] spec_cull(chrono, seen).0[k],
            ),
    decreases chrono.len(),
{
    if chrono.len() > 0 {
        let t = chrono.last();
        let c = chrono.drop_last();
        let seen2 = seen.insert(t.origin);
        let rest = spec_cull(c, seen2).0;
        lemma_cull_latest(c, seen2);
        lemma_cull_distinct_unseen(c, seen2);
        let out = spec_cull(chrono, seen).0;
        let last = chrono.len() - 1;
        assert forall|x: VideoTaskFull|
            latest_of_its_source(c, x) && !seen2.contains(x.origin) implies latest_of_its_source(
            chrono,
            x,
        ) by {
            let i = choose|i: int|
                0 <= i < c.len() && #[trigger] c[i] == x && forall|j: int|
                    i < j < c.len() ==> #[trigger] c[j].origin != x.origin;
            assert(chrono[i] == x);
            assert forall|j: int| i < j < chrono.len() implies #[trigger] chrono[j].origin != x.origin by {
                if j < c.len() {
                    assert(c[j] == chrono[j]);
                }
            }
        }
        assert forall|k: int| 0 <= k < out.len() implies latest_of_its_source(
            chrono,
            #[trigger] out[k],
        ) by {
            if !seen.contains(t.origin) && k == 0 {
                assert(chrono[last] == out[0]);
                assert forall|j: int| last < j < chrono.len() implies #[trigger] chrono[j].origin
                    != out[0].origin by {}
            } else {
                let kk = if !seen.contains(t.origin) { k - 1 } else { k };
                assert(out[k] == rest[kk]);
                assert(latest_of_its_source(c, rest[kk]));
                assert(!seen2.contains(rest[kk].origin));
            }
        }
    }
}

proof fn lemma_cull_covers(chrono: Seq<VideoTaskFull>, seen: Set<usize>)
    ensures
        forall|i: int|
            0 <= i < chrono.len() && !seen.contains(#[trigger] chrono[i].origin) ==> has_origin(
                spec_cull(chrono, seen).0,
                chrono[i].origin,
            ),
    decreases chrono.len(),
{
    if chrono.len() > 0 {
        let t = chrono.last();
        let c = chrono.drop_last();
        let seen2 = seen.insert(t.origin);
        let rest = spec_cull(c, seen2).0;
        lemma_cull_covers(c, seen2);
        let out = spec_cull(chrono, seen).0;
        let last = chrono.len() - 1;
        assert forall|i: int|
            0 <= i < chrono.len() && !seen.contains(#[trigger] chrono[i].origin) implies has_origin(
            out,
            chrono[i].origin,
        ) by {
            if chrono[i].origin == t.origin {
                assert(out[0].origin == chrono[i].origin);
            } else {
                assert(i != last);
                assert(c[i] == chrono[i]);
                assert(!seen2.contains(c[i].origin));
                let k = choose|k: int| 0 <= k < rest.len() && #[trigger] rest[k].origin == c[i].origin;
                if seen.contains(t.origin) {
                    assert(out[k] == rest[k]);
                } else {
                    assert(out[k + 1] == rest[k]);
                }
            }
        }
    }
}

proof fn lemma_cull_seen_after(chrono: Seq<VideoTaskFull>, seen: Set<usize>)
    ensures
        forall|o: usize|
            #[trigger] spec_cull(chrono, seen).1.contains(o) <==> (seen.contains(o) || exists|i: int|
                0 <= i < chrono.len() && #[trigger] chrono[i].origin == o),
    decreases chrono.len(),
{
    if chrono.len() > 0 {
        let t = chrono.last();
        let c = chrono.drop_last();
        let seen2 = seen.insert(t.origin);
        lemma_cull_seen_after(c, seen2);
        let last = chrono.len() - 1;
        assert(spec_cull(chrono, seen).1 == spec_cull(c, seen2).1);
        assert forall|o: usize|
            #[trigger] spec_cull(chrono, seen).1.contains(o) <==> (seen.contains(o) || exists|i: int|
                0 <= i < chrono.len() && #[trigger] chrono[i].origin == o) by {
            if spec_cull(chrono, seen).1.contains(o) && !seen.contains(o) {
                if o == t.origin {
                    assert(chrono[last].origin == o);
                } else {
                    assert(spec_cull(c, seen2).1.contains(o));
                    assert(!seen2.contains(o));
                    let i = choose|i: int| 0 <= i < c.len() && #[trigger] c[i].origin == o;
                    assert(chrono[i].origin == o);
                }
            }
            if exists|i: int| 0 <= i < chrono.len() && #[trigger] chrono[i].origin == o {
                let i = choose|i: int| 0 <= i < chrono.len() && #[trigger] chrono[i].origin == o;
                if i < last {
                    assert(c[i].origin == o);
                    assert(spec_cull(c, seen2).1.contains(o));
                } else {
                    assert(seen2.contains(o));
                    assert(spec_cull(c, seen2).1.contains(o));
                }
            }
            if seen.contains(o) {
                assert(seen2.contains(o));
                assert(spec_cull(c, seen2).1.contains(o));
            }
        }
    }
}

/// Culling keeps at most one task per source, never a task of a source
/// already seen, and for each source not yet seen exactly its most recent
/// task; afterwards every source of the culled events counts as seen.
pub proof fn lemma_cull_keeps_latest_per_source(chrono: Seq<VideoTaskFull>, seen: Set<usize>)
    ensures
        ({
            let (out, seen_after) = spec_cull(chrono, seen);
            &&& distinct_origins(out)
            &&& forall|k: int| 0 <= k < out.len() ==> !seen.contains(#[trigger] out[k].origin)
            &&& forall|k: int| 0 <= k < out.len() ==> latest_of_its_source(chrono, #[trigger] out[k])
            &&& forall|i: int|
                0 <= i < chrono.len() && !seen.contains(#[trigger] chrono[i].origin) ==> has_origin(
                    out,
                    chrono[i].origin,
                )
            &&& forall|o: usize|
                #[trigger] seen_after.contains(o) <==> (seen.contains(o) || exists|i: int|
                    0 <= i < chrono.len() && #[trigger] chrono[i].origin == o)
        }),
{
    lemma_cull_distinct_unseen(chrono, seen);
    lemma_cull_latest(chrono, seen);
    lemma_cull_covers(chrono, seen);
    lemma_cull_seen_after(chrono, seen);
}

/// The work queue of the video thread.
pub struct VideoWorkQueue {
    /// The sources already served in this round.
    pub sorting_set: HashSet<usize>,
    /// The events as they came in, most recent at the back.
    pub chrono_stack: VecDeque<VideoTaskFull>,
    /// The culled events, to be worked on from the front.
    pub sorted_dequeue: VecDeque<VideoTaskFull>,
    /// The sources of the current batch.
    pub batch_set: HashSet<usize>,
}

impl VideoWorkQueue {
    pub fn new() -> (r: Self)
        ensures
            r.sorting_set@ == Set::<usize>::empty(),
            r.chrono_stack@ == Seq::<VideoTaskFull>::empty(),
            r.sorted_dequeue@ == Seq::<VideoTaskFull>::empty(),
            r.batch_set@ == Set::<usize>::empty(),
    {
        VideoWorkQueue {
            sorting_set: HashSet::new(),
            chrono_stack: VecDeque::new(),
            sorted_dequeue: VecDeque::new(),
            batch_set: HashSet::new(),
        }
    }

    /// Starts a round: no source has been served yet.
    pub fn clear_sorting_set(&mut self)
        ensures
            final(self).sorting_set@ == Set::<usize>::empty(),
            final(self).chrono_stack@ == old(self).chrono_stack@,
            final(self).sorted_dequeue@ == old(self).sorted_dequeue@,
            final(self).batch_set@ == old(self).batch_set@,
    {
        self.sorting_set.clear();
    }

    /// Adds every source of the culled events to the batch.
    pub fn fill_batch_set(&mut self)
        ensures
            final(self).batch_set@ == old(self).batch_set@.union(
                old(self).sorted_dequeue@.map_values(|t: VideoTaskFull| t.origin).to_set(),
            ),
            final(self).sorting_set@ == old(self).sorting_set@,
            final(self).chrono_stack@ == old(self).chrono_stack@,
            final(self).sorted_dequeue@ == old(self).sorted_dequeue@,
    {
        let ghost origins = self.sorted_dequeue@.map_values(|t: VideoTaskFull| t.origin);
        let mut i: usize = 0;
        while i < self.sorted_dequeue.len()
            invariant
                i <= self.sorted_dequeue@.len(),
                self.sorted_dequeue@ == old(self).sorted_dequeue@,
                self.sorting_set@ == old(self).sorting_set@,
                self.chrono_stack@ == old(self).chrono_stack@,
                origins == self.sorted_dequeue@.map_values(|t: VideoTaskFull| t.origin),
                self.batch_set@ == old(self).batch_set@.union(origins.take(i as int).to_set()),
            decreases self.sorted_dequeue@.len() - i,
        {
            let origin = self.sorted_dequeue[i].origin;
            self.batch_set.insert(origin);
            assert(origins.take(i + 1).to_set() =~= origins.take(i as int).to_set().insert(origin)) by {
                assert(origins.take(i + 1) =~= origins.take(i as int).push(origin));
                origins.take(i as int).lemma_push_to_set_commute(origin);
            }
            i = i + 1;
            assert(self.batch_set@ =~= old(self).batch_set@.union(origins.take(i as int).to_set()));
        }
        assert(origins.take(i as int) =~= origins);
    }

    /// Moves the culled events back in front of the unsorted ones, keeping
    /// their order: they will be re-sorted with the lowest priority.
    pub fn drain_held_events_into_unsorted_buffer(&mut self)
        ensures
            final(self).chrono_stack@ == old(self).sorted_dequeue@.reverse() + old(self).chrono_stack@,
            final(self).sorted_dequeue@ == Seq::<VideoTaskFull>::empty(),
            final(self).sorting_set@ == old(self).sorting_set@,
            final(self).batch_set@ == old(self).batch_set@,
    {
        let ghost held = self.sorted_dequeue@;
        let held_len = self.sorted_dequeue.len();
        let mut moved: usize = 0;
        loop
            invariant
                held_len == held.len(),
                moved <= held.len(),
                self.sorted_dequeue@ == held.subrange(moved as int, held.len() as int),
                self.chrono_stack@ == held.take(moved as int).reverse() + old(self).chrono_stack@,
                self.sorting_set@ == old(self).sorting_set@,
                self.batch_set@ == old(self).batch_set@,
                held == old(self).sorted_dequeue@,
            ensures
                self.sorted_dequeue@ == Seq::<VideoTaskFull>::empty(),
                self.chrono_stack@ == held.reverse() + old(self).chrono_stack@,
                self.sorting_set@ == old(self).sorting_set@,
                self.batch_set@ == old(self).batch_set@,
            decreases held.len() - moved,
        {
            let element = match self.sorted_dequeue.pop_front() {
                Some(element) => element,
                None => {
                    assert(held.take(moved as int) =~= held);
                    break;
                },
            };
            let ghost before = self.chrono_stack@;
            self.chrono_stack.push_front(element);
            proof {
                assert(held.take(moved + 1).reverse() =~= seq![held[moved as int]] + held.take(
                    moved as int,
                ).reverse());
                assert(self.chrono_stack@ =~= held.take(moved + 1).reverse() + old(self).chrono_stack@);
                assert(self.sorted_dequeue@ =~= held.subrange(moved + 1, held.len() as int));
            }
            moved = moved + 1;
        }
    }

    /// Records an incoming event as the most recent.
    pub fn handle_incoming_message(&mut self, task: VideoTaskFull)
        ensures
            final(self).chrono_stack@ == old(self).chrono_stack@.push(task),
            final(self).sorted_dequeue@ == old(self).sorted_dequeue@,
            final(self).sorting_set@ == old(self).sorting_set@,
            final(self).batch_set@ == old(self).batch_set@,
    {
        self.chrono_stack.push_back(task);
    }

    /// Queues `task` unless its source was already served this round; gives
    /// the task back otherwise.
    pub fn try_insert_to_sorted_stack(&mut self, task: VideoTaskFull) -> (r: Result<(), VideoTaskFull>)
        ensures
            !old(self).sorting_set@.contains(task.origin) ==> r is Ok && final(self).sorted_dequeue@
                == old(self).sorted_dequeue@.push(task),
            old(self).sorting_set@.contains(task.origin) ==> r == Err::<(), VideoTaskFull>(task)
                && final(self).sorted_dequeue@ == old(self).sorted_dequeue@,
            final(self).chrono_stack@ == old(self).chrono_stack@,
            final(self).sorting_set@ == old(self).sorting_set@,
            final(self).batch_set@ == old(self).batch_set@,
    {
        if !self.sorting_set.contains(&task.origin) {
            self.sorted_dequeue.push_back(task);
            Ok(())
        } else {
            Err(task)
        }
    }

    /// Culls the unsorted events, newest first: of each source not served
    /// yet this round, only its most recent event is queued; older events of
    /// a source are discarded.
    pub fn cull_work_events(&mut self)
        ensures
            final(self).chrono_stack@ == Seq::<VideoTaskFull>::empty(),
            final(self).sorted_dequeue@ == old(self).sorted_dequeue@ + spec_cull(
                old(self).chrono_stack@,
                old(self).sorting_set@,
            ).0,
            final(self).sorting_set@ == spec_cull(old(self).chrono_stack@, old(self).sorting_set@).1,
            final(self).batch_set@ == old(self).batch_set@,
    {
        let ghost target = spec_cull(old(self).chrono_stack@, old(self).sorting_set@);
        while self.chrono_stack.len() > 0
            invariant
                self.sorted_dequeue@ + spec_cull(self.chrono_stack@, self.sorting_set@).0
                    == old(self).sorted_dequeue@ + target.0,
                spec_cull(self.chrono_stack@, self.sorting_set@).1 == target.1,
                self.batch_set@ == old(self).batch_set@,
            decreases self.chrono_stack@.len(),
        {
            let ghost chrono = self.chrono_stack@;
            let ghost seen = self.sorting_set@;
            let ghost sorted = self.sorted_dequeue@;
            let last_task = self.chrono_stack.pop_back();
            match last_task {
                Some(task) => {
                    let task_origin = task.origin;
                    assert(chrono.drop_last() == self.chrono_stack@);
                    let _ = self.try_insert_to_sorted_stack(task);
                    self.sorting_set.insert(task_origin);
                    proof {
                        let rest = spec_cull(chrono.drop_last(), seen.insert(task_origin));
                        if seen.contains(task_origin) {
                            assert(self.sorted_dequeue@ == sorted);
                        } else {
                            assert(self.sorted_dequeue@ + rest.0 =~= sorted + (seq![chrono.last()]
                                + rest.0));
                        }
                    }
                },
                None => {},
            }
        }
        assert(self.chrono_stack@ =~= Seq::<VideoTaskFull>::empty());
        assert(self.sorted_dequeue@ =~= old(self).sorted_dequeue@ + target.0);
    }

    /// The next event to work on, taken from the front of the culled ones.
    pub fn next_task(&mut self) -> (r: Option<VideoTaskFull>)
        ensures
            old(self).sorted_dequeue@.len() == 0 ==> r is None && final(self).sorted_dequeue@ == old(
                self,
            ).sorted_dequeue@,
            old(self).sorted_dequeue@.len() > 0 ==> r == Some(old(self).sorted_dequeue@[0])
                && final(self).sorted_dequeue@ == old(self).sorted_dequeue@.drop_first(),
            final(self).chrono_stack@ == old(self).chrono_stack@,
            final(self).sorting_set@ == old(self).sorting_set@,
            final(self).batch_set@ == old(self).batch_set@,
    {
        self.sorted_dequeue.pop_front()
    }
}

impl VideoWorkQueue {
    /// The events a round sorts: the held ones (oldest last, so that they
    /// rank below everything), then the queued ones, then the new ones.
    pub open spec fn round_events(self, incoming: Seq<VideoTaskFull>) -> Seq<VideoTaskFull> {
        self.sorted_dequeue@.reverse() + self.chrono_stack@ + incoming
    }

    /// One round of the video thread: forget which sources were served,
    /// put the held events back, take in the new ones, keep the most recent
    /// event of each source, start a batch if none is running, and hand out
    /// the first kept event.
    ///
    /// The event handed out is the most recent one of its source among all
    /// that the round sorted, and the events that stay queued come from
    /// distinct sources, none of them the one handed out.
    pub fn schedule(&mut self, incoming: Vec<VideoTaskFull>) -> (r: Option<VideoTaskFull>)
        ensures
            ({
                let events = old(self).round_events(incoming@);
                let (kept, seen) = spec_cull(events, Set::empty());
                &&& kept.len() == 0 ==> r is None && final(self).sorted_dequeue@ == kept
                &&& kept.len() > 0 ==> r == Some(kept[0]) && final(self).sorted_dequeue@
                    == kept.drop_first()
                &&& final(self).chrono_stack@ == Seq::<VideoTaskFull>::empty()
                &&& final(self).sorting_set@ == seen
                &&& final(self).batch_set@ == if old(self).batch_set@.is_empty() {
                    kept.map_values(|t: VideoTaskFull| t.origin).to_set()
                } else {
                    old(self).batch_set@
                }
                &&& r matches Some(t) ==> latest_of_its_source(events, t)
                &&& distinct_origins(kept)
                &&& forall|k: int|
                    0 <= k < final(self).sorted_dequeue@.len()
                        ==> #[trigger] final(self).sorted_dequeue@[k].origin != kept[0].origin
                &&& forall|i: int|
                    0 <= i < events.len() ==> has_origin(kept, #[trigger] events[i].origin)
            }),
    {
        let ghost events = old(self).round_events(incoming@);
        self.clear_sorting_set();
        self.drain_held_events_into_unsorted_buffer();
        let ghost start = self.chrono_stack@;
        let mut incoming = incoming;
        let ghost all_incoming = incoming@;
        let total: usize = incoming.len();
        assert(all_incoming.len() == total);
        let mut taken: usize = 0;
        while incoming.len() > 0
            invariant
                self.sorting_set@ == Set::<usize>::empty(),
                self.sorted_dequeue@ == Seq::<VideoTaskFull>::empty(),
                self.batch_set@ == old(self).batch_set@,
                taken + incoming@.len() == all_incoming.len(),
                all_incoming.len() <= usize::MAX,
                incoming@ == all_incoming.skip(taken as int),
                self.chrono_stack@ == start + all_incoming.take(taken as int),
            decreases incoming.len(),
        {
            let t = incoming.remove(0);
            self.handle_incoming_message(t);
            proof {
                assert(all_incoming.take(taken + 1) =~= all_incoming.take(taken as int).push(t));
            }
            taken = taken + 1;
            assert(incoming@ =~= all_incoming.skip(taken as int));
        }
        assert(all_incoming.take(taken as int) =~= all_incoming);
        assert(self.chrono_stack@ =~= events);
        self.cull_work_events();
        proof {
            lemma_cull_keeps_latest_per_source(events, Set::empty());
        }
        let ghost kept = spec_cull(events, Set::empty()).0;
        assert(self.sorted_dequeue@ =~= kept);
        if self.batch_set.is_empty() {
            self.fill_batch_set();
            assert(self.batch_set@ =~= kept.map_values(|t: VideoTaskFull| t.origin).to_set());
        }
        self.next_task()
    }
}

} // verus!
