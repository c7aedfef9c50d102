//! Bounded concurrent generation of the assets of all scenes.
use crate::db::SceneRecord;
use crate::error::{AppError, AppResult, ErrorView};
use crate::ids::Id;
use crate::pipeline::timeline::GeneratedScene;
use vstd::multiset::Multiset;
use vstd::prelude::*;
use vstd::string::*;

verus! {

/// How many scenes are generated at the same time at most.
pub const SCENE_CONCURRENCY: usize = 3;

/// How the generation of one scene came to its end.
pub enum SceneOutcome {
    Finished(AppResult<GeneratedScene>),
    /// The task that ran it was torn down; the text says why.
    Aborted(String),
}

/// Scenes that wait, scenes that run and scenes that are done.
pub struct SceneBatch {
    pending: Vec<SceneRecord>,
    running: usize,
    generated: Vec<GeneratedScene>,
    first_error: Option<AppError>,
}

pub struct BatchView {
    pub pending: Seq<SceneRecord>,
    pub running: int,
    pub generated: Seq<GeneratedScene>,
    pub first_error: Option<ErrorView>,
}

/// One step of a batch: a scene is started, or one that runs, given by its identifier, ends.
pub enum BatchStep {
    Start,
    End(Id, SceneOutcome),
}

impl View for SceneBatch {
    type V = BatchView;

    closed spec fn view(&self) -> BatchView {
        BatchView {
            pending: self.pending@,
            running: self.running as int,
            generated: self.generated@,
            first_error: match self.first_error {
                Some(e) => Some(e@),
                None => None,
            },
        }
    }
}

impl BatchView {
    /// A batch in which nothing has been started.
    pub open spec fn initial(scenes: Seq<SceneRecord>) -> BatchView {
        BatchView { pending: scenes, running: 0, generated: Seq::empty(), first_error: None }
    }

    /// Whether a scene may be started: one waits, the limit leaves room and none has failed.
    pub open spec fn can_start(self) -> bool {
        self.pending.len() > 0 && self.running < SCENE_CONCURRENCY && self.first_error is None
    }

    /// After the first of the waiting scenes was started.
    pub open spec fn started(self) -> BatchView {
        BatchView { pending: self.pending.drop_first(), running: self.running + 1, ..self }
    }

    /// After a running scene came to its end. Only the first failure is kept.
    pub open spec fn ended(self, outcome: SceneOutcome) -> BatchView {
        let failure = match outcome {
            SceneOutcome::Finished(Ok(_)) => None,
            SceneOutcome::Finished(Err(e)) => Some(e@),
            SceneOutcome::Aborted(m) => Some(
                ErrorView::Internal("场景生成任务异常终止: "@ + m@),
            ),
        };
        BatchView {
            running: self.running - 1,
            generated: match outcome {
                SceneOutcome::Finished(Ok(scene)) => self.generated.push(scene),
                _ => self.generated,
            },
            first_error: if self.first_error is Some { self.first_error } else { failure },
            ..self
        }
    }

    /// Whether everything that was or may be started has come to its end.
    pub open spec fn settled(self) -> bool {
        self.running == 0 && !self.can_start()
    }

    /// Whether a step is possible.
    pub open spec fn admits(self, step: BatchStep) -> bool {
        match step {
            BatchStep::Start => self.can_start(),
            BatchStep::End(..) => self.running > 0,
        }
    }

    pub open spec fn after(self, step: BatchStep) -> BatchView {
        match step {
            BatchStep::Start => self.started(),
            BatchStep::End(_, outcome) => self.ended(outcome),
        }
    }

    /// Whether `steps` can be made one after the other.
    pub open spec fn admits_all(self, steps: Seq<BatchStep>) -> bool
        decreases steps.len(),
    {
        steps.len() == 0 || (self.admits_all(steps.drop_last()) && self.after_all(
            steps.drop_last(),
        ).admits(steps.last()))
    }

    pub open spec fn after_all(self, steps: Seq<BatchStep>) -> BatchView
        decreases steps.len(),
    {
        if steps.len() == 0 {
            self
        } else {
            self.after_all(steps.drop_last()).after(steps.last())
        }
    }
}

/// The scenes with sequence number `n`, in their order.
pub open spec fn with_sequence(scenes: Seq<GeneratedScene>, n: i32) -> Seq<GeneratedScene> {
    scenes.filter(|s: GeneratedScene| s.sequence == n)
}

/// `sorted` holds the scenes of `scenes` in the order of their sequence numbers, and those
/// with the same number in the order that they had.
pub open spec fn is_sorted_by_sequence(
    sorted: Seq<GeneratedScene>,
    scenes: Seq<GeneratedScene>,
) -> bool {
    &&& forall|i: int, j: int|
        #![trigger sorted[i], sorted[j]]
        0 <= i < j < sorted.len() ==> sorted[i].sequence <= sorted[j].sequence
    &&& forall|n: i32| #[trigger] with_sequence(sorted, n) == with_sequence(scenes, n)
    &&& sorted.to_multiset() == scenes.to_multiset()
}

proof fn lemma_insert_keeps_groups(
    sorted: Seq<GeneratedScene>,
    scenes: Seq<GeneratedScene>,
    at: int,
    scene: GeneratedScene,
)
    requires
        is_sorted_by_sequence(sorted, scenes),
        0 <= at <= sorted.len(),
        forall|i: int| 0 <= i < at ==> (#[trigger] sorted[i]).sequence <= scene.sequence,
        forall|i: int|
            at <= i < sorted.len() ==> (#[trigger] sorted[i]).sequence > scene.sequence,
    ensures
        is_sorted_by_sequence(sorted.insert(at, scene), scenes.push(scene)),
{
    let left = sorted.take(at);
    let right = sorted.skip(at);
    let new = sorted.insert(at, scene);
    assert(sorted =~= left + right);
    assert(new =~= left.push(scene) + right);
    assert forall|i: int, j: int|
        #![trigger new[i], new[j]]
        0 <= i < j < new.len() implies new[i].sequence <= new[j].sequence by {
        let a = if i < at { i } else { i - 1 };
        let b = if j < at { j } else { j - 1 };
        if i != at && j != at {
            assert(new[i] == sorted[a] && new[j] == sorted[b]);
        } else if i == at {
            assert(new[j] == sorted[b]);
        } else {
            assert(new[i] == sorted[a]);
        }
    }
    assert forall|n: i32| #[trigger] with_sequence(new, n) == with_sequence(scenes.push(scene), n) by {
        let p = |s: GeneratedScene| s.sequence == n;
        assert(with_sequence(sorted, n) == with_sequence(scenes, n));
        Seq::filter_distributes_over_add(left, right, p);
        Seq::filter_distributes_over_add(left.push(scene), right, p);
        left.lemma_filter_push(scene, p);
        scenes.lemma_filter_push(scene, p);
        if n == scene.sequence {
            assert(right.all(|s: GeneratedScene| !p(s))) by {
                assert forall|i: int| 0 <= i < right.len() implies !p(#[trigger] right[i]) by {
                    assert(right[i] == sorted[i + at]);
                }
            }
            right.lemma_all_neg_filter_empty(p);
            assert(right.filter(p) =~= Seq::empty());
        }
        assert(new.filter(p) =~= scenes.push(scene).filter(p));
    }
    vstd::seq_lib::to_multiset_insert(sorted, at, scene);
    vstd::seq_lib::to_multiset_build(scenes, scene);
}

/// The scenes in the order of their sequence numbers.
pub fn sort_by_sequence(scenes: Vec<GeneratedScene>) -> (r: Vec<GeneratedScene>)
    ensures
        is_sorted_by_sequence(r@, scenes@),
{
    let ghost all = scenes@;
    let mut sorted: Vec<GeneratedScene> = Vec::new();
    assert(all.take(0) =~= sorted@);
    for scene in it: scenes
        invariant
            it.seq() == all,
            is_sorted_by_sequence(sorted@, all.take(it.index())),
            sorted@.len() == it.index(),
    {
        let mut at: usize = sorted.len();
        while at > 0 && sorted[at - 1].sequence > scene.sequence
            invariant
                at <= sorted@.len(),
                forall|i: int|
                    at <= i < sorted@.len() ==> (#[trigger] sorted@[i]).sequence > scene.sequence,
            decreases at,
        {
            at -= 1;
        }
        proof {
            assert forall|i: int| 0 <= i < at implies (#[trigger] sorted@[i]).sequence
                <= scene.sequence by {
                assert(sorted@[i].sequence <= sorted@[at - 1].sequence || i == at - 1);
            }
            lemma_insert_keeps_groups(sorted@, all.take(it.index()), at as int, scene);
            assert(all.take(it.index() + 1) =~= all.take(it.index()).push(scene));
        }
        sorted.insert(at, scene);
    }
    assert(all.take(all.len() as int) =~= all);
    sorted
}

impl SceneBatch {
    pub fn new(scenes: Vec<SceneRecord>) -> (r: SceneBatch)
        ensures
            r@ == BatchView::initial(scenes@),
    {
        SceneBatch { pending: scenes, running: 0, generated: Vec::new(), first_error: None }
    }

    /// The next scene to start, where one may be started now.
    pub fn start_next(&mut self) -> (r: Option<SceneRecord>)
        ensures
            old(self)@.can_start() ==> r == Some(old(self)@.pending[0]) && final(self)@ == old(
                self,
            )@.started(),
            !old(self)@.can_start() ==> r is None && final(self)@ == old(self)@,
    {
        if self.pending.len() > 0 && self.running < SCENE_CONCURRENCY && self.first_error.is_none() {
            let scene = self.pending.remove(0);
            self.running = self.running + 1;
            assert(self.pending@ =~= old(self).pending@.drop_first());
            Some(scene)
        } else {
            None
        }
    }

    /// Takes note of how a running scene came to its end.
    pub fn scene_ended(&mut self, outcome: SceneOutcome)
        requires
            old(self)@.running > 0,
        ensures
            final(self)@ == old(self)@.ended(outcome),
    {
        self.running = self.running - 1;
        match outcome {
            SceneOutcome::Finished(Ok(scene)) => {
                self.generated.push(scene);
            },
            SceneOutcome::Finished(Err(error)) => {
                if self.first_error.is_none() {
                    self.first_error = Some(error);
                }
            },
            SceneOutcome::Aborted(reason) => {
                if self.first_error.is_none() {
                    let mut message = "场景生成任务异常终止: ".to_owned();
                    message.append(reason.as_str());
                    self.first_error = Some(AppError::Internal(message));
                }
            },
        }
    }

    /// How many scenes run.
    pub fn running(&self) -> (r: usize)
        ensures
            r == self@.running,
    {
        self.running
    }

    /// What the batch came to: the first failure, or all generated scenes in order.
    pub fn conclude(self) -> (r: AppResult<Vec<GeneratedScene>>)
        requires
            self@.settled(),
        ensures
            self@.first_error is Some ==> r is Err && r->Err_0@ == self@.first_error->0,
            self@.first_error is None ==> r is Ok && is_sorted_by_sequence(
                r->Ok_0@,
                self@.generated,
            ),
    {
        match self.first_error {
            Some(error) => Err(error),
            None => Ok(sort_by_sequence(self.generated)),
        }
    }
}

/// The identifiers of stored scenes.
pub open spec fn scene_ids(scenes: Seq<SceneRecord>) -> Multiset<Id> {
    scenes.map_values(|scene: SceneRecord| scene.id).to_multiset()
}

/// The identifiers of the scenes that generated scenes belong to.
pub open spec fn generated_ids(scenes: Seq<GeneratedScene>) -> Multiset<Id> {
    scenes.map_values(|scene: GeneratedScene| scene.scene_id).to_multiset()
}

/// The identifiers of the scenes that run after `steps`: those that were started, less those
/// that ended.
pub open spec fn running_ids(scenes: Seq<SceneRecord>, steps: Seq<BatchStep>) -> Multiset<Id>
    decreases steps.len(),
{
    if steps.len() == 0 {
        Multiset::empty()
    } else {
        let ids = running_ids(scenes, steps.drop_last());
        match steps.last() {
            BatchStep::Start => ids.insert(
                BatchView::initial(scenes).after_all(steps.drop_last()).pending[0].id,
            ),
            BatchStep::End(id, _) => ids.remove(id),
        }
    }
}

/// The identifiers of the scenes that ended in `steps` without having been generated.
pub open spec fn failed_ids(steps: Seq<BatchStep>) -> Multiset<Id>
    decreases steps.len(),
{
    if steps.len() == 0 {
        Multiset::empty()
    } else {
        let ids = failed_ids(steps.drop_last());
        match steps.last() {
            BatchStep::End(_, SceneOutcome::Finished(Ok(_))) => ids,
            BatchStep::End(id, _) => ids.insert(id),
            BatchStep::Start => ids,
        }
    }
}

/// Whether each end in `steps` is that of a scene that ran, and each generated scene belongs
/// to the scene that ended.
pub open spec fn ends_are_of_running_scenes(
    scenes: Seq<SceneRecord>,
    steps: Seq<BatchStep>,
) -> bool
    decreases steps.len(),
{
    steps.len() > 0 ==> {
        &&& ends_are_of_running_scenes(scenes, steps.drop_last())
        &&& steps.last() matches BatchStep::End(id, outcome) ==> {
            &&& running_ids(scenes, steps.drop_last()).contains(id)
            &&& outcome matches SceneOutcome::Finished(Ok(scene)) ==> scene.scene_id == id
        }
    }
}

/// Whatever happens to the scenes of a batch, never more than the limit run at once, and each
/// scene, told apart by its identifier, waits, runs, is generated or has failed, and just one
/// of these; when all has come to its end without a failure, the generated scenes are exactly
/// those of the batch, none missing and none twice.
pub proof fn law_batch_accounts_for_every_scene(scenes: Seq<SceneRecord>, steps: Seq<BatchStep>)
    requires
        BatchView::initial(scenes).admits_all(steps),
        ends_are_of_running_scenes(scenes, steps),
    ensures
        ({
            let batch = BatchView::initial(scenes).after_all(steps);
            &&& 0 <= batch.running <= SCENE_CONCURRENCY
            &&& batch.running == running_ids(scenes, steps).len()
            &&& scene_ids(scenes) == scene_ids(batch.pending).add(running_ids(scenes, steps)).add(
                generated_ids(batch.generated),
            ).add(failed_ids(steps))
            &&& batch.first_error is None ==> failed_ids(steps) == Multiset::<Id>::empty()
            &&& batch.settled() && batch.first_error is None ==> generated_ids(batch.generated)
                == scene_ids(scenes)
        }),
    decreases steps.len(),
{
    broadcast use {
        vstd::multiset::group_multiset_axioms,
        vstd::multiset::group_multiset_properties,
    };

    let batch = BatchView::initial(scenes).after_all(steps);
    if steps.len() == 0 {
        assert(generated_ids(batch.generated) =~= Multiset::empty()) by {
            vstd::seq_lib::to_multiset_len(
                batch.generated.map_values(|scene: GeneratedScene| scene.scene_id),
            );
        }
    } else {
        let earlier = steps.drop_last();
        let before = BatchView::initial(scenes).after_all(earlier);
        law_batch_accounts_for_every_scene(scenes, earlier);
        match steps.last() {
            BatchStep::Start => {
                let ids = before.pending.map_values(|scene: SceneRecord| scene.id);
                vstd::seq_lib::to_multiset_remove(ids, 0);
                assert(ids.remove(0) =~= batch.pending.map_values(|scene: SceneRecord| scene.id));
                vstd::seq_lib::to_multiset_contains(ids, ids[0]);
            },
            BatchStep::End(id, SceneOutcome::Finished(Ok(scene))) => {
                let ids = before.generated.map_values(|scene: GeneratedScene| scene.scene_id);
                vstd::seq_lib::to_multiset_build(ids, scene.scene_id);
                assert(ids.push(scene.scene_id) =~= batch.generated.map_values(
                    |scene: GeneratedScene| scene.scene_id,
                ));
            },
            BatchStep::End(..) => {},
        }
        assert(scene_ids(scenes) =~= scene_ids(batch.pending).add(running_ids(scenes, steps)).add(
            generated_ids(batch.generated),
        ).add(failed_ids(steps)));
    }
    if batch.settled() && batch.first_error is None {
        assert(running_ids(scenes, steps).len() == 0);
        assert(running_ids(scenes, steps) =~= Multiset::empty());
        vstd::seq_lib::to_multiset_len(batch.pending.map_values(|scene: SceneRecord| scene.id));
        assert(scene_ids(batch.pending) =~= Multiset::empty());
        assert(generated_ids(batch.generated) =~= scene_ids(scenes));
    }
}

proof fn lemma_same_scenes_same_ids(left: Seq<GeneratedScene>, right: Seq<GeneratedScene>)
    requires
        left.to_multiset() == right.to_multiset(),
    ensures
        generated_ids(left) == generated_ids(right),
    decreases left.len(),
{
    let id = |scene: GeneratedScene| scene.scene_id;
    vstd::seq_lib::to_multiset_len(left);
    vstd::seq_lib::to_multiset_len(right);
    if left.len() == 0 {
        assert(left =~= right);
    } else {
        vstd::seq_lib::to_multiset_contains(left, left[0]);
        vstd::seq_lib::to_multiset_contains(right, left[0]);
        let at = choose|at: int| 0 <= at < right.len() && right[at] == left[0];
        vstd::seq_lib::to_multiset_remove(left, 0);
        vstd::seq_lib::to_multiset_remove(right, at);
        lemma_same_scenes_same_ids(left.remove(0), right.remove(at));
        vstd::seq_lib::to_multiset_remove(left.map_values(id), 0);
        vstd::seq_lib::to_multiset_remove(right.map_values(id), at);
        assert(left.map_values(id).remove(0) =~= left.remove(0).map_values(id));
        assert(right.map_values(id).remove(at) =~= right.remove(at).map_values(id));
        vstd::seq_lib::to_multiset_contains(left.map_values(id), left.map_values(id)[0]);
        vstd::seq_lib::to_multiset_contains(right.map_values(id), right.map_values(id)[at]);
        let one = generated_ids(left);
        let other = generated_ids(right);
        let scene_id = left[0].scene_id;
        assert(one =~= one.remove(scene_id).insert(scene_id));
        assert(other =~= other.remove(scene_id).insert(scene_id));
    }
}

/// The scenes that a batch concludes with are exactly those that it was made of, none missing
/// and none twice, in the order of their sequence numbers.
pub proof fn law_concluded_scenes_are_those_of_the_batch(
    scenes: Seq<SceneRecord>,
    steps: Seq<BatchStep>,
    concluded: Seq<GeneratedScene>,
)
    requires
        BatchView::initial(scenes).admits_all(steps),
        ends_are_of_running_scenes(scenes, steps),
        BatchView::initial(scenes).after_all(steps).settled(),
        BatchView::initial(scenes).after_all(steps).first_error is None,
        is_sorted_by_sequence(concluded, BatchView::initial(scenes).after_all(steps).generated),
    ensures
        generated_ids(concluded) == scene_ids(scenes),
        concluded.len() == scenes.len(),
        forall|i: int, j: int|
            #![trigger concluded[i], concluded[j]]
            0 <= i < j < concluded.len() ==> concluded[i].sequence <= concluded[j].sequence,
{
    law_batch_accounts_for_every_scene(scenes, steps);
    lemma_same_scenes_same_ids(
        concluded,
        BatchView::initial(scenes).after_all(steps).generated,
    );
    vstd::seq_lib::to_multiset_len(
        concluded.map_values(|scene: GeneratedScene| scene.scene_id),
    );
    vstd::seq_lib::to_multiset_len(scenes.map_values(|scene: SceneRecord| scene.id));
}

/// Once a scene has failed no other is started, and what is reported is that first failure.
pub proof fn law_nothing_starts_after_a_failure(batch: BatchView, steps: Seq<BatchStep>)
    requires
        batch.first_error is Some,
        batch.admits_all(steps),
    ensures
        batch.after_all(steps).pending == batch.pending,
        batch.after_all(steps).first_error == batch.first_error,
    decreases steps.len(),
{
    if steps.len() > 0 {
        law_nothing_starts_after_a_failure(batch, steps.drop_last());
    }
}

/// Scenes are started in their order, three at a time at most, and none once one has failed; a
/// start takes the first that waits, and changes nothing else.
pub proof fn law_scenes_start_in_order(batch: BatchView)
    ensures
        batch.can_start() <==> batch.pending.len() > 0 && batch.running < 3 && batch.first_error
            is None,
        batch.pending.len() > 0 ==> seq![batch.pending[0]] + batch.started().pending
            == batch.pending,
        batch.started().running == batch.running + 1,
        batch.started().generated == batch.generated,
        batch.started().first_error == batch.first_error,
        batch.settled() <==> batch.running == 0 && (batch.pending.len() == 0 || batch.first_error
            is Some),
{
    if batch.pending.len() > 0 {
        assert(seq![batch.pending[0]] + batch.started().pending =~= batch.pending);
    }
}

/// A scene that ends makes room for another; one that was generated is kept behind those before it,
/// and of failures the first is kept, with the text of why a task was torn down.
pub proof fn law_ended_scenes_are_kept(
    batch: BatchView,
    scene: GeneratedScene,
    error: AppError,
    reason: String,
)
    ensures
        ({
            let generated = batch.ended(SceneOutcome::Finished(Ok(scene)));
            let failed = batch.ended(SceneOutcome::Finished(Err(error)));
            let aborted = batch.ended(SceneOutcome::Aborted(reason));
            &&& generated.generated == batch.generated.push(scene)
            &&& generated.first_error == batch.first_error
            &&& failed.generated == batch.generated && aborted.generated == batch.generated
            &&& batch.first_error is None ==> failed.first_error == Some(error@)
                && aborted.first_error == Some(
                ErrorView::Internal("场景生成任务异常终止: "@ + reason@),
            )
            &&& batch.first_error is Some ==> failed.first_error == batch.first_error
                && aborted.first_error == batch.first_error
            &&& forall|after: BatchView|
                #![trigger after.running]
                after == generated || after == failed || after == aborted ==> after.running
                    == batch.running - 1 && after.pending == batch.pending
        }),
{
}

/// A batch starts with all its scenes waiting, and concludes with its first failure, or else with
/// all that was generated, by ascending sequence number.
pub proof fn law_batch_begins_and_concludes(
    scenes: Vec<SceneRecord>,
    fresh: SceneBatch,
    batch: SceneBatch,
    r: AppResult<Vec<GeneratedScene>>,
)
    requires
        call_ensures(SceneBatch::new, (scenes,), fresh),
        batch@.running == 0,
        batch@.pending.len() == 0 || batch@.first_error is Some,
        call_ensures(SceneBatch::conclude, (batch,), r),
    ensures
        fresh@.pending == scenes@,
        fresh@.running == 0 && fresh@.generated.len() == 0 && fresh@.first_error is None,
        r is Err <==> batch@.first_error is Some,
        r is Err ==> r->Err_0@ == batch@.first_error->0,
        r is Ok ==> {
            &&& r->Ok_0@.to_multiset() == batch@.generated.to_multiset()
            &&& forall|i: int, j: int|
                #![trigger r->Ok_0@[i], r->Ok_0@[j]]
                0 <= i < j < r->Ok_0@.len() ==> r->Ok_0@[i].sequence <= r->Ok_0@[j].sequence
        },
{
}

/// Sorting scenes puts them by ascending sequence number, leaves none out and adds none, and keeps
/// those of the same number in the order that they had.
pub proof fn law_scenes_are_sorted(
    scenes: Vec<GeneratedScene>,
    r: Vec<GeneratedScene>,
    n: i32,
)
    requires
        call_ensures(sort_by_sequence, (scenes,), r),
    ensures
        r@.to_multiset() == scenes@.to_multiset(),
        forall|i: int, j: int|
            #![trigger r@[i], r@[j]]
            0 <= i < j < r@.len() ==> r@[i].sequence <= r@[j].sequence,
        r@.filter(|s: GeneratedScene| s.sequence == n) == scenes@.filter(
            |s: GeneratedScene| s.sequence == n,
        ),
{
    assert(with_sequence(r@, n) == with_sequence(scenes@, n));
}

/// A batch tells how many of its scenes run.
pub proof fn law_running_scenes(batch: SceneBatch, r: usize)
    requires
        call_ensures(SceneBatch::running, (&batch,), r),
    ensures
        r == batch@.running,
{
}

/// Starting a scene hands out the first that waits, exactly where fewer than three run and none has
/// failed; it runs from then on, and nothing else changes.
pub proof fn law_start_of_a_scene(batch: &mut SceneBatch, r: Option<SceneRecord>)
    requires
        call_ensures(SceneBatch::start_next, (batch,), r),
    ensures
        r is Some <==> old(batch)@.pending.len() > 0 && old(batch)@.running < 3
            && old(batch)@.first_error is None,
        r is Some ==> seq![r->0] + final(batch)@.pending == old(batch)@.pending
            && final(batch)@.running == old(batch)@.running + 1,
        r is None ==> final(batch)@.pending == old(batch)@.pending && final(batch)@.running
            == old(batch)@.running,
        final(batch)@.generated == old(batch)@.generated,
        final(batch)@.first_error == old(batch)@.first_error,
{
    if r is Some {
        assert(seq![r->0] + final(batch)@.pending =~= old(batch)@.pending);
    }
}

/// The end of a scene makes room for another. What it generated is kept behind what was generated
/// before; its failure, or why it was torn down, is kept where it is the first.
pub proof fn law_end_of_a_scene(batch: &mut SceneBatch, outcome: SceneOutcome)
    requires
        old(batch)@.running > 0,
        call_ensures(SceneBatch::scene_ended, (batch, outcome), ()),
    ensures
        final(batch)@.pending == old(batch)@.pending,
        final(batch)@.running + 1 == old(batch)@.running,
        match outcome {
            SceneOutcome::Finished(Ok(scene)) => {
                &&& final(batch)@.generated == old(batch)@.generated.push(scene)
                &&& final(batch)@.first_error == old(batch)@.first_error
            },
            SceneOutcome::Finished(Err(error)) => {
                &&& final(batch)@.generated == old(batch)@.generated
                &&& old(batch)@.first_error is None ==> final(batch)@.first_error == Some(error@)
            },
            SceneOutcome::Aborted(reason) => {
                &&& final(batch)@.generated == old(batch)@.generated
                &&& old(batch)@.first_error is None ==> final(batch)@.first_error == Some(
                    ErrorView::Internal("场景生成任务异常终止: "@ + reason@),
                )
            },
        },
        old(batch)@.first_error is Some ==> final(batch)@.first_error == old(batch)@.first_error,
{
}

} // verus!
