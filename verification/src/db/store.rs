//! What the writes make of the records of a store.
//!
//! A table is a map from the key that tells its rows apart to the row. A write relates the
//! table before it to the table after it and to what it hands back; a write that fails leaves
//! the table as it was.
use crate::db::{
    scene_stored_as, AssetRecord, GenerationTask, NewAsset, NewGenerationTask, NewScene,
    RenderRecord, RenderStart, RenderUpdate, SceneRecord, SceneReplacement, SceneUpdate, TaskStart,
    TaskUpdate, VersionCreation, VersionUpdate,
};
use crate::domain::{Project, ProjectVersion, SceneDraft};
use crate::ids::Id;
use vstd::prelude::*;

verus! {

impl VersionCreation {
    /// Under what the version is found: its project and its number.
    pub open spec fn key(self) -> (Id, i32) {
        (self.project_id, self.version)
    }

    /// Whether `after` is the row of a version that was not there before.
    pub open spec fn inserts(self, after: ProjectVersion) -> bool {
        &&& after.id == self.id
        &&& after.project_id == self.project_id
        &&& after.version == self.version
        &&& after.script_spec is None
        &&& after.storyboard_spec is None
        &&& after.render_spec is None
    }

    /// Whether the write makes `after` of the versions `before` and hands back the version
    /// `handed`. A version that exists is left as it is.
    pub open spec fn changes(
        self,
        before: Map<(Id, i32), ProjectVersion>,
        after: Map<(Id, i32), ProjectVersion>,
        handed: ProjectVersion,
    ) -> bool {
        let key = self.key();
        &&& after.dom() == before.dom().insert(key)
        &&& forall|other: (Id, i32)|
            before.contains_key(other) ==> #[trigger] after[other] == before[other]
        &&& !before.contains_key(key) ==> self.inserts(after[key])
        &&& handed == after[key]
    }

    /// What the write, made at the instant `now`, leaves of the row of a project.
    pub open spec fn effect(self, row: Project, now: i64) -> Project {
        if row.id == self.project_id {
            Project { current_version: self.version, updated_at: now, ..row }
        } else {
            row
        }
    }
}

/// A version that is created a second time is the one that exists, with the identifier that it
/// got first and with what was saved of it in the meantime.
pub proof fn law_version_created_again_keeps_its_checkpoints(
    first: VersionCreation,
    save: VersionUpdate,
    second: VersionCreation,
    before: Map<(Id, i32), ProjectVersion>,
    between: Map<(Id, i32), ProjectVersion>,
    saved: Map<(Id, i32), ProjectVersion>,
    after: Map<(Id, i32), ProjectVersion>,
    one: ProjectVersion,
    other: ProjectVersion,
    now: i64,
)
    requires
        first.key() == second.key(),
        first.changes(before, between, one),
        saved == between.map_values(|row: ProjectVersion| save.effect(row, now)),
        second.changes(saved, after, other),
    ensures
        after.dom() == between.dom(),
        other == save.effect(one, now),
        other.id == one.id,
        !before.contains_key(first.key()) ==> one.id == first.id,
{
    assert(between.contains_key(first.key()));
    assert(saved.dom() =~= between.dom());
    assert(between.dom().insert(first.key()) =~= between.dom());
    assert(after[first.key()] == saved[first.key()]);
}

/// Whether `after` is the row of a task that was not there before.
pub open spec fn task_inserted(task: NewGenerationTask, after: GenerationTask) -> bool {
    &&& after.id == task.id
    &&& after.idempotency_key == task.idempotency_key
    &&& after.status@ == task.status@
    &&& after.attempt == task.attempt
    &&& after.output is None
    &&& after.usage is None
    &&& after.error_message is None
    &&& after.completed_at is None
}

impl TaskStart {
    /// What the start, at the instant `now`, leaves of the row of a task that exists under the
    /// key: it keeps its identifier and what it produced, counts one attempt more, and forgets
    /// when it ended and why it failed.
    pub open spec fn restarts(
        self,
        before: GenerationTask,
        after: GenerationTask,
        now: i64,
    ) -> bool {
        &&& after.id == before.id
        &&& after.idempotency_key == before.idempotency_key
        &&& after.status@ == self.restarted_status@
        &&& after.attempt == before.attempt + 1
        &&& after.output == before.output
        &&& after.usage == before.usage
        &&& after.error_message is None
        &&& after.started_at == Some(now)
        &&& after.completed_at is None
    }

    /// Whether the start, at the instant `now`, makes `after` of the tasks `before`, each found
    /// under its idempotency key, and hands back the identifier `handed`: that of the row in
    /// the table, be it new or not.
    pub open spec fn changes(
        self,
        before: Map<Seq<char>, GenerationTask>,
        after: Map<Seq<char>, GenerationTask>,
        handed: Id,
        now: i64,
    ) -> bool {
        let key = self.row.idempotency_key@;
        &&& after.dom() == before.dom().insert(key)
        &&& forall|other: Seq<char>|
            other != key && before.contains_key(other) ==> #[trigger] after[other] == before[other]
        &&& if before.contains_key(key) {
            self.restarts(before[key], after[key], now)
        } else {
            task_inserted(self.row, after[key])
        }
        &&& handed == after[key].id
    }
}

impl TaskUpdate {
    /// Whether the write, made at the instant `now`, makes `after` of the row `before`.
    pub open spec fn changes(
        self,
        before: GenerationTask,
        after: GenerationTask,
        now: i64,
    ) -> bool {
        if before.id != self.task_id {
            after == before
        } else {
            &&& after.id == before.id
            &&& after.idempotency_key == before.idempotency_key
            &&& after.attempt == before.attempt
            &&& after.status@ == self.status@
            &&& after.output == match self.result {
                Some(result) => Some(result.output),
                None => before.output,
            }
            &&& after.usage == match self.result {
                Some(result) => result.usage,
                None => before.usage,
            }
            &&& after.error_message == match self.error_message {
                Some(message) => Some(message),
                None => before.error_message,
            }
            &&& after.started_at == before.started_at
            &&& after.completed_at == Some(now)
        }
    }

    /// Whether the write, made at the instant `now`, makes `after` of the tasks `before`.
    pub open spec fn changes_all(
        self,
        before: Map<Seq<char>, GenerationTask>,
        after: Map<Seq<char>, GenerationTask>,
        now: i64,
    ) -> bool {
        &&& after.dom() == before.dom()
        &&& forall|key: Seq<char>|
            before.contains_key(key) ==> self.changes(before[key], #[trigger] after[key], now)
    }
}

/// What a lookup of a succeeded task under `key` finds in a row.
pub open spec fn cached_output(row: GenerationTask, key: Seq<char>) -> Option<String> {
    if row.idempotency_key@ == key && row.status@ == "succeeded"@ {
        row.output
    } else {
        None
    }
}

/// What a task produced is what a later lookup under its key finds, until it is started
/// again; a task that failed or that runs is not found.
pub proof fn law_completed_output_is_found(
    update: TaskUpdate,
    before: GenerationTask,
    after: GenerationTask,
    now: i64,
    start: TaskStart,
    again: GenerationTask,
    later: i64,
)
    requires
        update.task_id == before.id,
        update.changes(before, after, now),
        start.restarted_status@ == "running"@,
        start.restarts(after, again, later),
    ensures
        update.status@ == "succeeded"@ && update.result is Some ==> cached_output(
            after,
            before.idempotency_key@,
        ) == Some(update.result->0.output),
        update.status@ == "failed"@ ==> cached_output(after, before.idempotency_key@) is None,
        cached_output(again, before.idempotency_key@) is None,
        again.id == before.id,
{
    reveal_strlit("succeeded");
    reveal_strlit("failed");
    reveal_strlit("running");
    assert("succeeded"@[0] != "failed"@[0] && "succeeded"@[0] != "running"@[0]);
}

/// Of a task that is started under a key there is one row, and a start hands back its
/// identifier: that which the task brings where the key is new, and else that of the row. A
/// task that is started again runs once more, one attempt later, with no end and no failure.
pub proof fn law_start_hands_back_the_task_of_its_key(
    first: TaskStart,
    second: TaskStart,
    before: Map<Seq<char>, GenerationTask>,
    between: Map<Seq<char>, GenerationTask>,
    after: Map<Seq<char>, GenerationTask>,
    one: Id,
    other: Id,
    now: i64,
    later: i64,
)
    requires
        first.changes(before, between, one, now),
        second.changes(between, after, other, later),
        second.restarted_status@ == "running"@,
    ensures
        ({
            let key = first.row.idempotency_key@;
            &&& one == if before.contains_key(key) { before[key].id } else { first.row.id }
            &&& second.row.idempotency_key@ == key ==> {
                &&& other == one
                &&& after.dom() == between.dom()
                &&& after[key].id == one
                &&& after[key].status@ == "running"@
                &&& after[key].attempt == between[key].attempt + 1
                &&& after[key].completed_at is None
                &&& after[key].error_message is None
            }
            &&& second.row.idempotency_key@ != key ==> after[key] == between[key]
        }),
{
    let key = first.row.idempotency_key@;
    assert(between.contains_key(key));
    if second.row.idempotency_key@ == key {
        assert(between.dom().insert(key) =~= between.dom());
    }
}

/// Whether one write of a task, a start or an end, makes `after` of the tasks `before`.
pub open spec fn task_step(
    before: Map<Seq<char>, GenerationTask>,
    after: Map<Seq<char>, GenerationTask>,
) -> bool {
    ||| exists|start: TaskStart, handed: Id, now: i64| start.changes(before, after, handed, now)
    ||| exists|update: TaskUpdate, now: i64| update.changes_all(before, after, now)
}

/// The task of a key keeps its identifier for good, whatever tasks are started and ended.
pub proof fn law_task_keeps_its_identifier(
    history: Seq<Map<Seq<char>, GenerationTask>>,
    key: Seq<char>,
)
    requires
        history.len() > 0,
        history[0].contains_key(key),
        forall|i: int|
            0 <= i < history.len() - 1 ==> #[trigger] task_step(history[i], history[i + 1]),
    ensures
        history.last().contains_key(key),
        history.last()[key].id == history[0][key].id,
    decreases history.len(),
{
    if history.len() > 1 {
        let earlier = history.drop_last();
        let end = history.len() - 1;
        assert forall|i: int| 0 <= i < earlier.len() - 1 implies #[trigger] task_step(
            earlier[i],
            earlier[i + 1],
        ) by {
            assert(task_step(history[i], history[i + 1]));
        }
        law_task_keeps_its_identifier(earlier, key);
        assert(earlier.last() == history[end - 1]);
        assert(task_step(history[end - 1], history[end - 1 + 1]));
        let before = history[end - 1];
        let after = history[end];
        if exists|start: TaskStart, handed: Id, now: i64| start.changes(before, after, handed, now) {
            let (start, handed, now) = choose|start: TaskStart, handed: Id, now: i64|
                start.changes(before, after, handed, now);
            assert(after.dom().contains(key));
            assert(after[key].id == before[key].id);
        } else {
            let (update, now) = choose|update: TaskUpdate, now: i64|
                update.changes_all(before, after, now);
            assert(after.dom().contains(key));
            assert(update.changes(before[key], after[key], now));
        }
    }
}

/// Whether `after` is the row that a new scene is stored as.
pub open spec fn scene_inserted(scene: NewScene, after: SceneRecord) -> bool {
    &&& after.id == scene.id
    &&& after.project_id == scene.project_id
    &&& after.project_version_id == scene.project_version_id
    &&& after.sequence == scene.sequence
    &&& after.narration_text == scene.narration_text
    &&& after.visual_prompt == scene.visual_prompt
    &&& after.on_screen_text == scene.on_screen_text
    &&& after.transition@ == scene.transition@
}

/// Whether each scene of the table is found under its identifier.
pub open spec fn scenes_by_id(scenes: Map<Id, SceneRecord>) -> bool {
    forall|id: Id| scenes.contains_key(id) ==> (#[trigger] scenes[id]).id == id
}

impl SceneReplacement {
    /// Whether a scene with the identifier `id` is among the new ones.
    pub open spec fn brings(self, id: Id) -> bool {
        exists|i: int| 0 <= i < self.rows@.len() && (#[trigger] self.rows@[i]).id == id
    }

    /// Whether `scenes` holds a scene with the identifier `id` that the write leaves alone.
    pub open spec fn keeps(self, scenes: Map<Id, SceneRecord>, id: Id) -> bool {
        scenes.contains_key(id) && scenes[id].project_version_id != self.version_id
    }

    /// Whether the write makes `after` of the scenes `before`, in one step that nobody sees
    /// the middle of. Where it succeeds, the scenes of the version are gone and the new ones
    /// are there; an identifier that is taken makes it fail. Where it fails, nothing changes.
    pub open spec fn changes(
        self,
        before: Map<Id, SceneRecord>,
        after: Map<Id, SceneRecord>,
        succeeds: bool,
    ) -> bool {
        if succeeds {
            &&& forall|i: int, j: int|
                #![trigger self.rows@[i], self.rows@[j]]
                0 <= i < j < self.rows@.len() ==> self.rows@[i].id != self.rows@[j].id
            &&& forall|id: Id| #[trigger] self.brings(id) ==> !self.keeps(before, id)
            &&& forall|id: Id| #[trigger]
                after.contains_key(id) <==> self.keeps(before, id) || self.brings(id)
            &&& forall|id: Id| #[trigger] self.keeps(before, id) ==> after[id] == before[id]
            &&& forall|i: int|
                0 <= i < self.rows@.len() ==> scene_inserted(
                    #[trigger] self.rows@[i],
                    after[self.rows@[i].id],
                )
        } else {
            after == before
        }
    }
}

/// Whether `listed` are the scenes of a version, each once, by ascending sequence number.
pub open spec fn lists_version(
    listed: Seq<SceneRecord>,
    scenes: Map<Id, SceneRecord>,
    version_id: Id,
) -> bool {
    &&& forall|k: int|
        0 <= k < listed.len() ==> {
            let scene = #[trigger] listed[k];
            &&& scenes.contains_key(scene.id)
            &&& scenes[scene.id] == scene
            &&& scene.project_version_id == version_id
        }
    &&& forall|id: Id| #[trigger]
        scenes.contains_key(id) && scenes[id].project_version_id == version_id
            ==> listed.contains(scenes[id])
    &&& forall|k: int, l: int|
        #![trigger listed[k], listed[l]]
        0 <= k < l < listed.len() ==> listed[k].id != listed[l].id && listed[k].sequence
            <= listed[l].sequence
}

/// Whether a stored scene says what a draft says.
pub open spec fn scene_of_draft(scene: SceneRecord, draft: SceneDraft) -> bool {
    &&& scene.sequence == draft.sequence
    &&& scene.narration_text == draft.narration
    &&& scene.visual_prompt == draft.visual_prompt
    &&& scene.on_screen_text == draft.on_screen_text
    &&& scene.transition@ == draft.transition.stored()
}

/// Whether a stored scene says what one of the drafts says.
pub open spec fn has_draft(scene: SceneRecord, drafts: Seq<SceneDraft>) -> bool {
    exists|i: int| 0 <= i < drafts.len() && #[trigger] scene_of_draft(scene, drafts[i])
}

/// Whether one of the stored scenes says what a draft says.
pub open spec fn has_scene(draft: SceneDraft, scenes: Seq<SceneRecord>) -> bool {
    exists|k: int| 0 <= k < scenes.len() && #[trigger] scene_of_draft(scenes[k], draft)
}

/// Whether the drafts stand by ascending sequence number.
pub open spec fn in_order(drafts: Seq<SceneDraft>) -> bool {
    forall|i: int, j: int|
        #![trigger drafts[i], drafts[j]]
        0 <= i < j < drafts.len() ==> drafts[i].sequence < drafts[j].sequence
}

/// Whether the write brings a scene for each draft, in their order.
pub open spec fn replaces_by(
    replacement: SceneReplacement,
    project_id: Id,
    version_id: Id,
    drafts: Seq<SceneDraft>,
) -> bool {
    &&& replacement.version_id == version_id
    &&& replacement.rows@.len() == drafts.len()
    &&& forall|i: int|
        0 <= i < drafts.len() ==> scene_stored_as(
            #[trigger] replacement.rows@[i],
            replacement.rows@[i].id,
            project_id,
            version_id,
            drafts[i],
        )
}

/// Once the scenes of a version were replaced by drafts of which no two have the same sequence
/// number, its list holds exactly one scene for each draft, by ascending sequence number, and
/// no other: nothing is left of the scenes that it had. Drafts that are in that order come
/// back in it.
pub proof fn law_replaced_scenes_are_listed(
    replacement: SceneReplacement,
    project_id: Id,
    drafts: Seq<SceneDraft>,
    before: Map<Id, SceneRecord>,
    after: Map<Id, SceneRecord>,
    listed: Seq<SceneRecord>,
)
    requires
        replaces_by(replacement, project_id, replacement.version_id, drafts),
        forall|i: int, j: int|
            #![trigger drafts[i], drafts[j]]
            0 <= i < j < drafts.len() ==> drafts[i].sequence != drafts[j].sequence,
        replacement.changes(before, after, true),
        lists_version(listed, after, replacement.version_id),
    ensures
        listed.len() == drafts.len(),
        forall|k: int, l: int|
            #![trigger listed[k], listed[l]]
            0 <= k < l < listed.len() ==> listed[k].sequence < listed[l].sequence,
        forall|k: int| 0 <= k < listed.len() ==> #[trigger] has_draft(listed[k], drafts),
        forall|i: int| 0 <= i < drafts.len() ==> #[trigger] has_scene(drafts[i], listed),
        in_order(drafts) ==> forall|k: int|
            0 <= k < listed.len() ==> #[trigger] scene_of_draft(listed[k], drafts[k]),
{
    let rows = replacement.rows@;
    assert forall|k: int| 0 <= k < listed.len() implies #[trigger] has_draft(listed[k], drafts) by {
        lemma_listed_scene_is_new(replacement, project_id, drafts, before, after, listed, k);
    }
    assert forall|i: int| 0 <= i < drafts.len() implies #[trigger] has_scene(drafts[i], listed) by {
        lemma_new_scene_is_listed(replacement, project_id, drafts, before, after, listed, i);
    }
    assert forall|k: int, l: int|
        #![trigger listed[k], listed[l]]
        0 <= k < l < listed.len() implies listed[k].sequence < listed[l].sequence by {
        let i = lemma_listed_scene_is_new(
            replacement,
            project_id,
            drafts,
            before,
            after,
            listed,
            k,
        );
        let j = lemma_listed_scene_is_new(
            replacement,
            project_id,
            drafts,
            before,
            after,
            listed,
            l,
        );
        assert(i != j);
        assert(drafts[i].sequence != drafts[j].sequence);
    }
    let listed_ids = listed.map_values(|scene: SceneRecord| scene.id);
    let row_ids = rows.map_values(|row: NewScene| row.id);
    assert(listed_ids.no_duplicates());
    assert(row_ids.no_duplicates());
    assert(listed_ids.to_set() =~= row_ids.to_set()) by {
        assert forall|id: Id| listed_ids.contains(id) implies row_ids.contains(id) by {
            let k = choose|k: int| 0 <= k < listed_ids.len() && listed_ids[k] == id;
            let i = lemma_listed_scene_is_new(
                replacement,
                project_id,
                drafts,
                before,
                after,
                listed,
                k,
            );
            assert(row_ids[i] == id);
        }
        assert forall|id: Id| row_ids.contains(id) implies listed_ids.contains(id) by {
            let i = choose|i: int| 0 <= i < row_ids.len() && row_ids[i] == id;
            let k = lemma_new_scene_is_listed(
                replacement,
                project_id,
                drafts,
                before,
                after,
                listed,
                i,
            );
            assert(listed_ids[k] == id);
        }
    }
    listed_ids.unique_seq_to_set();
    row_ids.unique_seq_to_set();
    if in_order(drafts) {
        assert forall|k: int| 0 <= k < listed.len() implies #[trigger] scene_of_draft(
            listed[k],
            drafts[k],
        ) by {
            lemma_listed_in_order(listed, drafts, k);
            assert(has_draft(listed[k], drafts));
            let i = choose|i: int|
                0 <= i < drafts.len() && #[trigger] scene_of_draft(listed[k], drafts[i]);
            assert(drafts[i].sequence == drafts[k].sequence);
        }
    }
}

/// The scenes of a version that a workflow goes on with are as many as its storyboard has
/// drafts, of which no two have the same sequence number: those that were stored where they
/// are complete, and else those that took their place.
pub proof fn law_loaded_scenes_are_complete(
    restored: Option<SceneReplacement>,
    project_id: Id,
    version_id: Id,
    drafts: Seq<SceneDraft>,
    before: Map<Id, SceneRecord>,
    stored: Seq<SceneRecord>,
    after: Map<Id, SceneRecord>,
    listed: Seq<SceneRecord>,
)
    requires
        lists_version(stored, before, version_id),
        restored is None <==> stored.len() == drafts.len(),
        restored is Some ==> replaces_by(restored->0, project_id, version_id, drafts)
            && restored->0.changes(before, after, true),
        restored is None ==> after == before && listed == stored,
        forall|i: int, j: int|
            #![trigger drafts[i], drafts[j]]
            0 <= i < j < drafts.len() ==> drafts[i].sequence != drafts[j].sequence,
        lists_version(listed, after, version_id),
    ensures
        listed.len() == drafts.len(),
        restored is Some ==> forall|i: int|
            0 <= i < drafts.len() ==> #[trigger] has_scene(drafts[i], listed),
{
    if restored is Some {
        law_replaced_scenes_are_listed(restored->0, project_id, drafts, before, after, listed);
    }
}

proof fn lemma_listed_scene_is_new(
    replacement: SceneReplacement,
    project_id: Id,
    drafts: Seq<SceneDraft>,
    before: Map<Id, SceneRecord>,
    after: Map<Id, SceneRecord>,
    listed: Seq<SceneRecord>,
    k: int,
) -> (i: int)
    requires
        replaces_by(replacement, project_id, replacement.version_id, drafts),
        replacement.changes(before, after, true),
        lists_version(listed, after, replacement.version_id),
        0 <= k < listed.len(),
    ensures
        0 <= i < drafts.len(),
        replacement.rows@[i].id == listed[k].id,
        scene_of_draft(listed[k], drafts[i]),
{
    let rows = replacement.rows@;
    let id = listed[k].id;
    assert(after.contains_key(id));
    if replacement.keeps(before, id) {
        assert(after[id] == before[id]);
    }
    assert(replacement.brings(id));
    let i = choose|i: int| 0 <= i < rows.len() && (#[trigger] rows[i]).id == id;
    assert(scene_inserted(rows[i], after[rows[i].id]));
    i
}

proof fn lemma_new_scene_is_listed(
    replacement: SceneReplacement,
    project_id: Id,
    drafts: Seq<SceneDraft>,
    before: Map<Id, SceneRecord>,
    after: Map<Id, SceneRecord>,
    listed: Seq<SceneRecord>,
    i: int,
) -> (k: int)
    requires
        replaces_by(replacement, project_id, replacement.version_id, drafts),
        replacement.changes(before, after, true),
        lists_version(listed, after, replacement.version_id),
        0 <= i < drafts.len(),
    ensures
        0 <= k < listed.len(),
        replacement.rows@[i].id == listed[k].id,
        scene_of_draft(listed[k], drafts[i]),
{
    let rows = replacement.rows@;
    let id = rows[i].id;
    assert(replacement.brings(id));
    assert(after.contains_key(id));
    assert(scene_inserted(rows[i], after[rows[i].id]));
    assert(listed.contains(after[id]));
    choose|k: int| 0 <= k < listed.len() && listed[k] == after[id]
}

proof fn lemma_listed_in_order(listed: Seq<SceneRecord>, drafts: Seq<SceneDraft>, k: int)
    requires
        listed.len() == drafts.len(),
        forall|k: int, l: int|
            #![trigger listed[k], listed[l]]
            0 <= k < l < listed.len() ==> listed[k].sequence < listed[l].sequence,
        in_order(drafts),
        forall|k: int| 0 <= k < listed.len() ==> #[trigger] has_draft(listed[k], drafts),
        forall|i: int| 0 <= i < drafts.len() ==> #[trigger] has_scene(drafts[i], listed),
        0 <= k < listed.len(),
    ensures
        listed[k].sequence == drafts[k].sequence,
    decreases k,
{
    assert forall|j: int| 0 <= j < k implies (#[trigger] listed[j]).sequence
        == drafts[j].sequence by {
        lemma_listed_in_order(listed, drafts, j);
    }
    assert(has_draft(listed[k], drafts));
    let i = choose|i: int|
        0 <= i < drafts.len() && #[trigger] scene_of_draft(listed[k], drafts[i]);
    assert(has_scene(drafts[k], listed));
    let l = choose|l: int| 0 <= l < listed.len() && #[trigger] scene_of_draft(listed[l], drafts[k]);
    if i < k {
        assert(listed[i].sequence == drafts[i].sequence);
    }
    if l < k {
        assert(listed[l].sequence == drafts[l].sequence);
    }
}

/// Whether the replacement of the scenes of a version succeeds or fails, the lists of all
/// other versions stay as they are; where it fails, that of the version does too.
pub proof fn law_replaced_scenes_touch_no_other_version(
    replacement: SceneReplacement,
    project_id: Id,
    drafts: Seq<SceneDraft>,
    before: Map<Id, SceneRecord>,
    after: Map<Id, SceneRecord>,
    succeeds: bool,
    listed: Seq<SceneRecord>,
    version_id: Id,
)
    requires
        scenes_by_id(before),
        replaces_by(replacement, project_id, replacement.version_id, drafts),
        replacement.changes(before, after, succeeds),
        lists_version(listed, before, version_id),
        version_id != replacement.version_id || !succeeds,
    ensures
        scenes_by_id(after),
        lists_version(listed, after, version_id),
{
    if succeeds {
        let rows = replacement.rows@;
        assert forall|id: Id| after.contains_key(id) implies (#[trigger] after[id]).id == id && (
        replacement.keeps(before, id) || after[id].project_version_id
            == replacement.version_id) by {
            if replacement.keeps(before, id) {
                assert(after[id] == before[id]);
            } else {
                assert(replacement.brings(id));
                let i = choose|i: int| 0 <= i < rows.len() && (#[trigger] rows[i]).id == id;
                assert(scene_inserted(rows[i], after[rows[i].id]));
            }
        }
        assert forall|k: int| 0 <= k < listed.len() implies {
            let scene = #[trigger] listed[k];
            &&& after.contains_key(scene.id)
            &&& after[scene.id] == scene
            &&& scene.project_version_id == version_id
        } by {
            assert(replacement.keeps(before, listed[k].id));
        }
        assert forall|id: Id| #[trigger]
            after.contains_key(id) && after[id].project_version_id
                == version_id implies listed.contains(after[id]) by {
            assert(after[id].id == id);
            assert(replacement.keeps(before, id));
            assert(before.contains_key(id));
        }
    }
}

impl SceneUpdate {
    /// Whether the write, made at the instant `now`, makes `after` of the row `before`.
    pub open spec fn changes(self, before: SceneRecord, after: SceneRecord, now: i64) -> bool {
        if before.id != self.scene_id {
            after == before
        } else {
            &&& after.status@ == self.status@
            &&& after == SceneRecord {
                status: after.status,
                duration_ms: match self.ready {
                    Some(ready) => Some(ready.duration_ms),
                    None => before.duration_ms,
                },
                image_asset_id: match self.ready {
                    Some(ready) => Some(ready.image_id),
                    None => before.image_asset_id,
                },
                audio_asset_id: match self.ready {
                    Some(ready) => Some(ready.audio_id),
                    None => before.audio_asset_id,
                },
                caption_asset_id: match self.ready {
                    Some(ready) => Some(ready.caption_id),
                    None => before.caption_asset_id,
                },
                updated_at: now,
                ..before
            }
        }
    }
}

impl NewAsset {
    /// Whether `after` is the row of the asset, but for its identifier and when it was made.
    pub open spec fn describes(self, after: AssetRecord) -> bool {
        &&& after.project_id == self.project_id
        &&& after.scene_id == self.scene_id
        &&& after.kind@ == self.kind@
        &&& after.provider == self.provider
        &&& after.model == self.model
        &&& after.storage_key == self.storage_key
        &&& after.public_url == self.public_url
        &&& after.content_type@ == self.content_type@
        &&& after.byte_size == self.byte_size
        &&& after.checksum == self.checksum
        &&& after.metadata@ == self.metadata.json_text()
    }

    /// Whether storing the asset makes `after` of the assets `before`, each found under its
    /// storage key, and hands back the record `handed`. A file that is stored again keeps the
    /// identifier and the age of its record and takes all else from the new asset.
    pub open spec fn changes(
        self,
        before: Map<Seq<char>, AssetRecord>,
        after: Map<Seq<char>, AssetRecord>,
        handed: AssetRecord,
    ) -> bool {
        let key = self.storage_key@;
        &&& after.dom() == before.dom().insert(key)
        &&& forall|other: Seq<char>|
            other != key && before.contains_key(other) ==> #[trigger] after[other] == before[other]
        &&& self.describes(after[key])
        &&& if before.contains_key(key) {
            after[key].id == before[key].id && after[key].created_at == before[key].created_at
        } else {
            after[key].id == self.id
        }
        &&& handed == after[key]
    }
}

/// A file that is stored twice has one record. Both times the same identifier is handed back,
/// so what refers to the record by it still finds it, and finds there what was stored last.
pub proof fn law_asset_stored_again_keeps_its_identifier(
    first: NewAsset,
    second: NewAsset,
    before: Map<Seq<char>, AssetRecord>,
    between: Map<Seq<char>, AssetRecord>,
    after: Map<Seq<char>, AssetRecord>,
    one: AssetRecord,
    other: AssetRecord,
)
    requires
        first.storage_key@ == second.storage_key@,
        first.changes(before, between, one),
        second.changes(between, after, other),
    ensures
        other.id == one.id,
        other.created_at == one.created_at,
        !before.contains_key(first.storage_key@) ==> one.id == first.id,
        after.dom() == between.dom(),
        after[first.storage_key@] == other,
        second.describes(other),
{
    assert(between.contains_key(first.storage_key@));
    assert(between.dom().insert(first.storage_key@) =~= between.dom());
}

impl RenderStart {
    /// What the start, at the instant `now`, leaves of the row of a rendering that exists for
    /// the version and the specification: it keeps its identifier, its size and its age, goes
    /// to the workflow that starts it, and forgets the video and why it failed.
    pub open spec fn restarts(self, before: RenderRecord, after: RenderRecord, now: i64) -> bool {
        &&& after.status@ == self.restarted_status@
        &&& after == RenderRecord {
            workflow_id: self.row.workflow_id,
            status: after.status,
            storage_key: None,
            public_url: None,
            duration_ms: None,
            error_message: None,
            updated_at: now,
            ..before
        }
    }

    /// Whether `after` is the row of a rendering that was not there before.
    pub open spec fn inserts(self, after: RenderRecord) -> bool {
        &&& after.id == self.row.id
        &&& after.project_id == self.row.project_id
        &&& after.project_version_id == self.row.project_version_id
        &&& after.workflow_id == self.row.workflow_id
        &&& after.status@ == self.row.status@
        &&& after.render_spec_hash == self.row.render_spec_hash
        &&& after.storage_key is None
        &&& after.public_url is None
        &&& after.duration_ms is None
        &&& after.width == self.row.width
        &&& after.height == self.row.height
        &&& after.fps == self.row.fps
        &&& after.error_message is None
    }

    /// Under what the rendering is found: its version and the digest of its specification.
    pub open spec fn key(self) -> (Id, Seq<char>) {
        (self.row.project_version_id, self.row.render_spec_hash@)
    }

    /// Whether the start, at the instant `now`, makes `after` of the renderings `before` and
    /// hands back the identifier `handed`: that of the row in the table, be it new or not.
    pub open spec fn changes(
        self,
        before: Map<(Id, Seq<char>), RenderRecord>,
        after: Map<(Id, Seq<char>), RenderRecord>,
        handed: Id,
        now: i64,
    ) -> bool {
        let key = self.key();
        &&& after.dom() == before.dom().insert(key)
        &&& forall|other: (Id, Seq<char>)|
            other != key && before.contains_key(other) ==> #[trigger] after[other] == before[other]
        &&& if before.contains_key(key) {
            self.restarts(before[key], after[key], now)
        } else {
            self.inserts(after[key])
        }
        &&& handed == after[key].id
    }
}

impl RenderUpdate {
    /// Whether the write, made at the instant `now`, makes `after` of the row `before`.
    pub open spec fn changes(self, before: RenderRecord, after: RenderRecord, now: i64) -> bool {
        if before.id != self.render_id {
            after == before
        } else {
            &&& after.status@ == self.status@
            &&& after == RenderRecord {
                status: after.status,
                storage_key: match self.video {
                    Some(video) => Some(video.storage_key),
                    None => before.storage_key,
                },
                public_url: match self.video {
                    Some(video) => Some(video.public_url),
                    None => before.public_url,
                },
                duration_ms: match self.video {
                    Some(video) => Some(video.duration_ms),
                    None => before.duration_ms,
                },
                error_message: match self.error_message {
                    Some(message) => Some(message),
                    None => before.error_message,
                },
                updated_at: now,
                ..before
            }
        }
    }
}

/// A version that is rendered again by the same specification has one record of it. Both
/// starts hand back its identifier, whatever the rendering came to in between, and the record
/// is then that of a rendering that runs for the second workflow and has no video yet.
pub proof fn law_render_started_again_keeps_its_identifier(
    first: RenderStart,
    end: RenderUpdate,
    second: RenderStart,
    before: Map<(Id, Seq<char>), RenderRecord>,
    between: Map<(Id, Seq<char>), RenderRecord>,
    ended: Map<(Id, Seq<char>), RenderRecord>,
    after: Map<(Id, Seq<char>), RenderRecord>,
    one: Id,
    other: Id,
    now: i64,
    later: i64,
    last: i64,
)
    requires
        first.key() == second.key(),
        second.restarted_status@ == "rendering"@,
        first.changes(before, between, one, now),
        ended.dom() == between.dom(),
        end.changes(between[first.key()], ended[first.key()], later),
        second.changes(ended, after, other, last),
    ensures
        ({
            let record = after[first.key()];
            &&& other == one
            &&& !before.contains_key(first.key()) ==> one == first.row.id
            &&& after.dom() == between.dom()
            &&& record.id == one
            &&& record.workflow_id == second.row.workflow_id
            &&& record.status@ == "rendering"@
            &&& record.storage_key is None
            &&& record.public_url is None
            &&& record.duration_ms is None
            &&& record.error_message is None
        }),
{
    assert(between.contains_key(first.key()));
    assert(between.dom().insert(first.key()) =~= between.dom());
}

} // verus!
