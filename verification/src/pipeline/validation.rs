//! What generated scripts, storyboards and captions have to satisfy.
use crate::domain::{
    invalid, rejected, reports, CaptionCue, SceneDraft, ScriptSection, ScriptSpec, StoryboardSpec,
};
use crate::error::{AppError, AppResult, ErrorView};
use crate::text::{
    blank, compact, concatenated, decimal, decimal_i64, decimal_u64, is_blank, without_whitespace,
};
use vstd::prelude::*;
use vstd::string::*;

verus! {

/// The narration of all sections, one after the other.
pub open spec fn sections_narration(sections: Seq<ScriptSection>) -> Seq<char> {
    concatenated(Seq::new(sections.len(), |i: int| sections[i].narration@))
}

/// The narration of all scenes, one after the other.
pub open spec fn scenes_narration(scenes: Seq<SceneDraft>) -> Seq<char> {
    concatenated(Seq::new(scenes.len(), |i: int| scenes[i].narration@))
}

/// The first rule that a script breaks.
pub open spec fn script_problem(script: ScriptSpec) -> Option<ErrorView> {
    if blank(script.title@) || blank(script.summary@) || blank(script.visual_style@) || blank(
        script.full_narration@,
    ) || script.sections@.len() == 0 {
        Some(ErrorView::Validation("文稿关键字段不能为空"@))
    } else if compact(sections_narration(script.sections@)) != compact(script.full_narration@) {
        Some(ErrorView::Validation("文稿 sections 的口播内容与 full_narration 不一致"@))
    } else {
        None
    }
}

/// The first rule that the scene at `index` of a storyboard breaks.
pub open spec fn scene_problem(scene: SceneDraft, index: int) -> Option<ErrorView> {
    if scene.sequence != index + 1 {
        Some(ErrorView::Validation("场景序号必须从 1 连续递增，错误位置 "@ + decimal(index + 1)))
    } else if blank(scene.narration@) {
        Some(ErrorView::Validation("场景 "@ + decimal(scene.sequence as int) + " 缺少口播"@))
    } else if blank(scene.visual_prompt@) {
        Some(
            ErrorView::Validation("场景 "@ + decimal(scene.sequence as int) + " 缺少画面提示词"@),
        )
    } else {
        None
    }
}

/// The first problem of the scenes from `index` on.
pub open spec fn scenes_problem(scenes: Seq<SceneDraft>, index: int) -> Option<ErrorView>
    decreases scenes.len() - index,
{
    if index < 0 || index >= scenes.len() {
        None
    } else if scene_problem(scenes[index], index) is Some {
        scene_problem(scenes[index], index)
    } else {
        scenes_problem(scenes, index + 1)
    }
}

/// The first rule that a storyboard for a script breaks.
pub open spec fn storyboard_problem(storyboard: StoryboardSpec, script: ScriptSpec) -> Option<
    ErrorView,
> {
    let style = storyboard.style_bible;
    let scenes = storyboard.scenes@;
    if blank(style.art_direction@) || style.color_palette@.len() == 0 || style.image_rules@.len()
        == 0 || blank(style.negative_prompt@) {
        Some(ErrorView::Validation("分镜视觉规范不能为空"@))
    } else if scenes.len() == 0 {
        Some(ErrorView::Validation("分镜不能为空"@))
    } else if scenes.len() > 300 {
        Some(ErrorView::Validation("分镜不能超过 300 个场景"@))
    } else if scenes_problem(scenes, 0) is Some {
        scenes_problem(scenes, 0)
    } else if compact(scenes_narration(scenes)) != compact(script.full_narration@) {
        Some(ErrorView::Validation("分镜口播合并后与审核文稿不一致"@))
    } else {
        None
    }
}

/// Where the cue before `index` ends, and 0 before the first.
pub open spec fn previous_end(cues: Seq<CaptionCue>, index: int) -> int {
    if index <= 0 {
        0
    } else {
        cues[index - 1].end_ms as int
    }
}

/// Whether the cue at `index` has a text and a span of time that follows the cue before
/// it and ends at most a second after the audio.
pub open spec fn cue_fits(cues: Seq<CaptionCue>, index: int, duration_ms: int) -> bool {
    let cue = cues[index];
    &&& !blank(cue.text@)
    &&& 0 <= cue.start_ms < cue.end_ms
    &&& previous_end(cues, index) <= cue.start_ms
    &&& cue.end_ms <= duration_ms + 1000
}

/// The first problem of the cues from `index` on.
pub open spec fn captions_problem(
    cues: Seq<CaptionCue>,
    index: int,
    duration_ms: int,
) -> Option<ErrorView>
    decreases cues.len() - index,
{
    if index < 0 || index >= cues.len() {
        None
    } else if !cue_fits(cues, index, duration_ms) {
        Some(
            ErrorView::Validation(
                "字幕时间戳无效，错误位置 "@ + decimal(index + 1) + ": "@ + decimal(
                    cues[index].start_ms as int,
                ) + "-"@ + decimal(cues[index].end_ms as int) + "ms"@,
            ),
        )
    } else {
        captions_problem(cues, index + 1, duration_ms)
    }
}

/// `value` without any white space.
pub fn compact_text(value: &str) -> (r: String)
    ensures
        r@ == compact(value@),
{
    without_whitespace(value)
}

fn join_sections(sections: &Vec<ScriptSection>) -> (r: String)
    ensures
        r@ == sections_narration(sections@),
{
    let ghost parts = Seq::new(sections@.len(), |i: int| sections@[i].narration@);
    let mut out = String::new();
    let mut i: usize = 0;
    while i < sections.len()
        invariant
            i <= sections@.len(),
            parts == Seq::new(sections@.len(), |i: int| sections@[i].narration@),
            out@ == concatenated(parts.take(i as int)),
        decreases sections@.len() - i,
    {
        assert(parts.take(i + 1).drop_last() =~= parts.take(i as int));
        out.append(sections[i].narration.as_str());
        i += 1;
    }
    assert(parts.take(i as int) =~= parts);
    out
}

fn join_scenes(scenes: &Vec<SceneDraft>) -> (r: String)
    ensures
        r@ == scenes_narration(scenes@),
{
    let ghost parts = Seq::new(scenes@.len(), |i: int| scenes@[i].narration@);
    let mut out = String::new();
    let mut i: usize = 0;
    while i < scenes.len()
        invariant
            i <= scenes@.len(),
            parts == Seq::new(scenes@.len(), |i: int| scenes@[i].narration@),
            out@ == concatenated(parts.take(i as int)),
        decreases scenes@.len() - i,
    {
        assert(parts.take(i + 1).drop_last() =~= parts.take(i as int));
        out.append(scenes[i].narration.as_str());
        i += 1;
    }
    assert(parts.take(i as int) =~= parts);
    out
}

pub fn validate_script(script: &ScriptSpec) -> (r: AppResult<()>)
    ensures
        reports(r, script_problem(*script)),
{
    if is_blank(script.title.as_str()) || is_blank(script.summary.as_str()) || is_blank(
        script.visual_style.as_str(),
    ) || is_blank(script.full_narration.as_str()) || script.sections.len() == 0 {
        return Err(rejected("文稿关键字段不能为空"));
    }
    let narration = join_sections(&script.sections);
    if compact_text(narration.as_str()) != compact_text(script.full_narration.as_str()) {
        return Err(rejected("文稿 sections 的口播内容与 full_narration 不一致"));
    }
    Ok(())
}

fn about_scene(sequence: i32, what: &str) -> (r: AppError)
    ensures
        r@ == ErrorView::Validation("场景 "@ + decimal(sequence as int) + what@),
{
    let number = decimal_i64(sequence as i64);
    let mut message = "场景 ".to_owned();
    message.append(number.as_str());
    message.append(what);
    AppError::Validation(message)
}

pub fn validate_storyboard(storyboard: &StoryboardSpec, script: &ScriptSpec) -> (r: AppResult<()>)
    ensures
        reports(r, storyboard_problem(*storyboard, *script)),
{
    let style = &storyboard.style_bible;
    if is_blank(style.art_direction.as_str()) || style.color_palette.len() == 0
        || style.image_rules.len() == 0 || is_blank(style.negative_prompt.as_str()) {
        return Err(rejected("分镜视觉规范不能为空"));
    }
    let scenes = &storyboard.scenes;
    if scenes.len() == 0 {
        return Err(rejected("分镜不能为空"));
    }
    if scenes.len() > 300 {
        return Err(rejected("分镜不能超过 300 个场景"));
    }
    let mut index: usize = 0;
    while index < scenes.len()
        invariant
            index <= scenes@.len() <= 300,
            scenes@ == storyboard.scenes@,
            scenes_problem(scenes@, 0) == scenes_problem(scenes@, index as int),
            scenes_problem(scenes@, 0) is Some ==> storyboard_problem(*storyboard, *script)
                == scenes_problem(scenes@, 0),
        decreases scenes@.len() - index,
    {
        let scene = &scenes[index];
        if scene.sequence != index as i32 + 1 {
            let place = decimal_u64(index as u64 + 1);
            return Err(
                invalid("场景序号必须从 1 连续递增，错误位置 ", place.as_str()),
            );
        }
        if is_blank(scene.narration.as_str()) {
            return Err(about_scene(scene.sequence, " 缺少口播"));
        }
        if is_blank(scene.visual_prompt.as_str()) {
            return Err(about_scene(scene.sequence, " 缺少画面提示词"));
        }
        index += 1;
    }
    let narration = join_scenes(scenes);
    if compact_text(narration.as_str()) != compact_text(script.full_narration.as_str()) {
        return Err(rejected("分镜口播合并后与审核文稿不一致"));
    }
    Ok(())
}

pub fn validate_captions(cues: &Vec<CaptionCue>, duration_ms: i64) -> (r: AppResult<()>)
    ensures
        reports(r, captions_problem(cues@, 0, duration_ms as int)),
{
    let limit: i128 = duration_ms as i128 + 1_000;
    let mut previous: i64 = 0;
    let mut index: usize = 0;
    while index < cues.len()
        invariant
            index <= cues@.len(),
            limit == duration_ms + 1000,
            previous == previous_end(cues@, index as int),
            captions_problem(cues@, 0, duration_ms as int) == captions_problem(
                cues@,
                index as int,
                duration_ms as int,
            ),
        decreases cues@.len() - index,
    {
        let cue = &cues[index];
        if is_blank(cue.text.as_str()) || cue.start_ms < 0 || cue.end_ms <= cue.start_ms
            || cue.start_ms < previous || cue.end_ms as i128 > limit {
            let place = decimal_u64(index as u64 + 1);
            let start = decimal_i64(cue.start_ms);
            let end = decimal_i64(cue.end_ms);
            let mut message = "字幕时间戳无效，错误位置 ".to_owned();
            message.append(place.as_str());
            message.append(": ");
            message.append(start.as_str());
            message.append("-");
            message.append(end.as_str());
            message.append("ms");
            return Err(AppError::Validation(message));
        }
        previous = cue.end_ms;
        index += 1;
    }
    Ok(())
}

proof fn lemma_scenes_without_problem(scenes: Seq<SceneDraft>, from: int, i: int)
    requires
        0 <= from <= i < scenes.len(),
        scenes_problem(scenes, from) is None,
    ensures
        scene_problem(scenes[i], i) is None,
    decreases i - from,
{
    if from < i {
        lemma_scenes_without_problem(scenes, from + 1, i);
    }
}

/// An accepted storyboard has between 1 and 300 scenes, numbered from 1 on without a gap,
/// each with a narration and a prompt, and together they tell the narration of the script
/// without leaving out or changing anything but white space.
pub proof fn law_accepted_storyboard(storyboard: StoryboardSpec, script: ScriptSpec)
    requires
        storyboard_problem(storyboard, script) is None,
    ensures
        1 <= storyboard.scenes@.len() <= 300,
        forall|i: int|
            #![trigger storyboard.scenes@[i]]
            0 <= i < storyboard.scenes@.len() ==> {
                &&& storyboard.scenes@[i].sequence == i + 1
                &&& !blank(storyboard.scenes@[i].narration@)
                &&& !blank(storyboard.scenes@[i].visual_prompt@)
            },
        compact(scenes_narration(storyboard.scenes@)) == compact(script.full_narration@),
{
    let scenes = storyboard.scenes@;
    assert forall|i: int| #![trigger scenes[i]] 0 <= i < scenes.len() implies {
        &&& scenes[i].sequence == i + 1
        &&& !blank(scenes[i].narration@)
        &&& !blank(scenes[i].visual_prompt@)
    } by {
        lemma_scenes_without_problem(scenes, 0, i);
    }
}

/// The sections of an accepted script and the scenes of an accepted storyboard for it tell
/// the same, up to white space.
pub proof fn law_storyboard_tells_the_sections(storyboard: StoryboardSpec, script: ScriptSpec)
    requires
        script_problem(script) is None,
        storyboard_problem(storyboard, script) is None,
    ensures
        compact(scenes_narration(storyboard.scenes@)) == compact(
            sections_narration(script.sections@),
        ),
{
}

proof fn lemma_captions_without_problem(
    cues: Seq<CaptionCue>,
    duration_ms: int,
    from: int,
    i: int,
)
    requires
        0 <= from <= i < cues.len(),
        captions_problem(cues, from, duration_ms) is None,
    ensures
        cue_fits(cues, i, duration_ms),
    decreases i - from,
{
    if from < i {
        lemma_captions_without_problem(cues, duration_ms, from + 1, i);
    }
}

proof fn lemma_cues_in_order(cues: Seq<CaptionCue>, duration_ms: int, i: int, j: int)
    requires
        0 <= i < j < cues.len(),
        captions_problem(cues, 0, duration_ms) is None,
    ensures
        cues[i].end_ms <= cues[j].start_ms,
    decreases j - i,
{
    lemma_captions_without_problem(cues, duration_ms, 0, j);
    if i + 1 < j {
        lemma_cues_in_order(cues, duration_ms, i, j - 1);
        lemma_captions_without_problem(cues, duration_ms, 0, j - 1);
    }
}

/// Accepted captions each have a text and a span of time that is not empty, lie within the
/// audio and a second, and no two of them overlap: an earlier cue ends before a later starts.
pub proof fn law_accepted_captions(cues: Seq<CaptionCue>, duration_ms: int)
    requires
        captions_problem(cues, 0, duration_ms) is None,
    ensures
        forall|i: int|
            #![trigger cues[i]]
            0 <= i < cues.len() ==> !blank(cues[i].text@) && 0 <= cues[i].start_ms
                < cues[i].end_ms <= duration_ms + 1000,
        forall|i: int, j: int|
            #![trigger cues[i], cues[j]]
            0 <= i < j < cues.len() ==> cues[i].end_ms <= cues[j].start_ms,
{
    assert forall|i: int| #![trigger cues[i]] 0 <= i < cues.len() implies !blank(cues[i].text@)
        && 0 <= cues[i].start_ms < cues[i].end_ms <= duration_ms + 1000 by {
        lemma_captions_without_problem(cues, duration_ms, 0, i);
    }
    assert forall|i: int, j: int|
        #![trigger cues[i], cues[j]]
        0 <= i < j < cues.len() implies cues[i].end_ms <= cues[j].start_ms by {
        lemma_cues_in_order(cues, duration_ms, i, j);
    }
}

proof fn lemma_captions_all_fit(cues: Seq<CaptionCue>, duration_ms: int, from: int)
    requires
        0 <= from,
        forall|i: int|
            #![trigger cues[i]]
            from <= i < cues.len() ==> {
                &&& !blank(cues[i].text@)
                &&& 0 <= cues[i].start_ms < cues[i].end_ms <= duration_ms + 1000
                &&& i > 0 ==> cues[i - 1].end_ms <= cues[i].start_ms
            },
    ensures
        captions_problem(cues, from, duration_ms) is None,
    decreases cues.len() - from,
{
    if from < cues.len() {
        let cue = cues[from];
        lemma_captions_all_fit(cues, duration_ms, from + 1);
    }
}

/// Captions are accepted exactly where each cue has a text, a span of time that is not empty and
/// not before the start, ends at most a second after the audio, and starts no earlier than the
/// cue before it ends. Nothing else counts: a pause of any length between two cues is fine.
pub proof fn law_captions_accepted_exactly(
    cues: Vec<CaptionCue>,
    duration_ms: i64,
    r: AppResult<()>,
)
    requires
        call_ensures(validate_captions, (&cues, duration_ms), r),
    ensures
        r is Ok <==> forall|i: int|
            #![trigger cues@[i]]
            0 <= i < cues@.len() ==> {
                &&& !blank(cues@[i].text@)
                &&& 0 <= cues@[i].start_ms < cues@[i].end_ms <= duration_ms + 1000
                &&& i > 0 ==> cues@[i - 1].end_ms <= cues@[i].start_ms
            },
{
    if r is Ok {
        assert forall|i: int| #![trigger cues@[i]] 0 <= i < cues@.len() implies {
            &&& !blank(cues@[i].text@)
            &&& 0 <= cues@[i].start_ms < cues@[i].end_ms <= duration_ms + 1000
            &&& i > 0 ==> cues@[i - 1].end_ms <= cues@[i].start_ms
        } by {
            lemma_captions_without_problem(cues@, duration_ms as int, 0, i);
        }
    }
    if forall|i: int|
        #![trigger cues@[i]]
        0 <= i < cues@.len() ==> {
            &&& !blank(cues@[i].text@)
            &&& 0 <= cues@[i].start_ms < cues@[i].end_ms <= duration_ms + 1000
            &&& i > 0 ==> cues@[i - 1].end_ms <= cues@[i].start_ms
        } {
        lemma_captions_all_fit(cues@, duration_ms as int, 0);
    }
}

proof fn lemma_captions_problem_at(cues: Seq<CaptionCue>, duration_ms: int, from: int, i: int)
    requires
        0 <= from <= i < cues.len(),
        forall|k: int| from <= k < i ==> #[trigger] cue_fits(cues, k, duration_ms),
    ensures
        captions_problem(cues, from, duration_ms) == captions_problem(cues, i, duration_ms),
    decreases i - from,
{
    if from < i {
        assert(cue_fits(cues, from, duration_ms));
        lemma_captions_problem_at(cues, duration_ms, from + 1, i);
    }
}

/// The error on captions names the first cue at fault, counted from 1, and its span of time,
/// whatever is wrong with later ones.
pub proof fn law_captions_error_names_the_first_fault(
    cues: Vec<CaptionCue>,
    duration_ms: i64,
    r: AppResult<()>,
    i: int,
)
    requires
        call_ensures(validate_captions, (&cues, duration_ms), r),
        0 <= i < cues@.len(),
        forall|k: int|
            #![trigger cues@[k]]
            0 <= k < i ==> {
                &&& !blank(cues@[k].text@)
                &&& 0 <= cues@[k].start_ms < cues@[k].end_ms <= duration_ms + 1000
                &&& k > 0 ==> cues@[k - 1].end_ms <= cues@[k].start_ms
            },
        ({
            ||| blank(cues@[i].text@)
            ||| cues@[i].start_ms < 0
            ||| cues@[i].end_ms <= cues@[i].start_ms
            ||| cues@[i].end_ms > duration_ms + 1000
            ||| i > 0 && cues@[i].start_ms < cues@[i - 1].end_ms
        }),
    ensures
        r is Err,
        r->Err_0@ == ErrorView::Validation(
            "字幕时间戳无效，错误位置 "@ + decimal(i + 1) + ": "@ + decimal(cues@[i].start_ms as int)
                + "-"@ + decimal(cues@[i].end_ms as int) + "ms"@,
        ),
{
    assert forall|k: int| 0 <= k < i implies #[trigger] cue_fits(
        cues@,
        k,
        duration_ms as int,
    ) by {
        let cue = cues@[k];
    }
    lemma_captions_problem_at(cues@, duration_ms as int, 0, i);
}

/// A script is accepted exactly where its title, its summary, its visual style and its narration
/// are not blank, it has a section, and its sections tell its narration up to white space.
pub proof fn law_script_accepted_exactly(script: ScriptSpec, r: AppResult<()>)
    requires
        call_ensures(validate_script, (&script,), r),
    ensures
        ({
            let complete = !blank(script.title@) && !blank(script.summary@) && !blank(
                script.visual_style@,
            ) && !blank(script.full_narration@) && script.sections@.len() > 0;
            let told = compact(
                concatenated(
                    Seq::new(script.sections@.len(), |i: int| script.sections@[i].narration@),
                ),
            ) == compact(script.full_narration@);
            &&& r is Ok <==> complete && told
            &&& !complete ==> r->Err_0@ == ErrorView::Validation("文稿关键字段不能为空"@)
            &&& complete && !told ==> r->Err_0@ == ErrorView::Validation(
                "文稿 sections 的口播内容与 full_narration 不一致"@,
            )
        }),
{
}

proof fn lemma_scenes_all_sound(scenes: Seq<SceneDraft>, from: int)
    requires
        0 <= from,
        forall|i: int|
            #![trigger scenes[i]]
            from <= i < scenes.len() ==> scenes[i].sequence == i + 1 && !blank(scenes[i].narration@)
                && !blank(scenes[i].visual_prompt@),
    ensures
        scenes_problem(scenes, from) is None,
    decreases scenes.len() - from,
{
    if from < scenes.len() {
        let scene = scenes[from];
        lemma_scenes_all_sound(scenes, from + 1);
    }
}

/// A storyboard is accepted exactly where its style names an art direction, a palette, rules for
/// images and what to avoid, it has from 1 to 300 scenes, numbered from 1 on, each with a
/// narration and a prompt, and they tell the narration of the script up to white space.
pub proof fn law_storyboard_accepted_exactly(
    storyboard: StoryboardSpec,
    script: ScriptSpec,
    r: AppResult<()>,
)
    requires
        call_ensures(validate_storyboard, (&storyboard, &script), r),
    ensures
        ({
            let style = storyboard.style_bible;
            let scenes = storyboard.scenes@;
            let styled = !blank(style.art_direction@) && style.color_palette@.len() > 0
                && style.image_rules@.len() > 0 && !blank(style.negative_prompt@);
            let sound = forall|i: int|
                #![trigger scenes[i]]
                0 <= i < scenes.len() ==> scenes[i].sequence == i + 1 && !blank(
                    scenes[i].narration@,
                ) && !blank(scenes[i].visual_prompt@);
            let told = compact(concatenated(Seq::new(scenes.len(), |i: int| scenes[i].narration@)))
                == compact(script.full_narration@);
            &&& r is Ok <==> styled && 1 <= scenes.len() <= 300 && sound && told
            &&& !styled ==> r->Err_0@ == ErrorView::Validation("分镜视觉规范不能为空"@)
            &&& styled && scenes.len() == 0 ==> r->Err_0@ == ErrorView::Validation(
                "分镜不能为空"@,
            )
            &&& styled && scenes.len() > 300 ==> r->Err_0@ == ErrorView::Validation(
                "分镜不能超过 300 个场景"@,
            )
            &&& styled && 1 <= scenes.len() <= 300 && sound && !told ==> r->Err_0@
                == ErrorView::Validation("分镜口播合并后与审核文稿不一致"@)
        }),
{
    let scenes = storyboard.scenes@;
    if scenes_problem(scenes, 0) is None {
        assert forall|i: int| #![trigger scenes[i]] 0 <= i < scenes.len() implies
            scenes[i].sequence == i + 1 && !blank(scenes[i].narration@) && !blank(
            scenes[i].visual_prompt@,
        ) by {
            lemma_scenes_without_problem(scenes, 0, i);
        }
    }
    if forall|i: int|
        #![trigger scenes[i]]
        0 <= i < scenes.len() ==> scenes[i].sequence == i + 1 && !blank(scenes[i].narration@)
            && !blank(scenes[i].visual_prompt@) {
        lemma_scenes_all_sound(scenes, 0);
    }
}

proof fn lemma_scenes_problem_at(scenes: Seq<SceneDraft>, from: int, i: int)
    requires
        0 <= from <= i < scenes.len(),
        forall|k: int|
            #![trigger scenes[k]]
            from <= k < i ==> scenes[k].sequence == k + 1 && !blank(scenes[k].narration@) && !blank(
                scenes[k].visual_prompt@,
            ),
    ensures
        scenes_problem(scenes, from) == scenes_problem(scenes, i),
    decreases i - from,
{
    if from < i {
        let scene = scenes[from];
        lemma_scenes_problem_at(scenes, from + 1, i);
    }
}

/// The error on the scenes of a storyboard is that of the first scene at fault: that its number
/// is not its place, else that it says nothing, else that it shows nothing.
pub proof fn law_storyboard_error_names_the_first_fault(
    storyboard: StoryboardSpec,
    script: ScriptSpec,
    r: AppResult<()>,
    i: int,
)
    requires
        call_ensures(validate_storyboard, (&storyboard, &script), r),
        !blank(storyboard.style_bible.art_direction@),
        storyboard.style_bible.color_palette@.len() > 0,
        storyboard.style_bible.image_rules@.len() > 0,
        !blank(storyboard.style_bible.negative_prompt@),
        0 <= i < storyboard.scenes@.len() <= 300,
        forall|k: int|
            #![trigger storyboard.scenes@[k]]
            0 <= k < i ==> storyboard.scenes@[k].sequence == k + 1 && !blank(
                storyboard.scenes@[k].narration@,
            ) && !blank(storyboard.scenes@[k].visual_prompt@),
    ensures
        ({
            let scene = storyboard.scenes@[i];
            &&& scene.sequence != i + 1 ==> r is Err && r->Err_0@ == ErrorView::Validation(
                "场景序号必须从 1 连续递增，错误位置 "@ + decimal(i + 1),
            )
            &&& scene.sequence == i + 1 && blank(scene.narration@) ==> r is Err && r->Err_0@
                == ErrorView::Validation("场景 "@ + decimal(i + 1) + " 缺少口播"@)
            &&& scene.sequence == i + 1 && !blank(scene.narration@) && blank(scene.visual_prompt@)
                ==> r is Err && r->Err_0@ == ErrorView::Validation(
                "场景 "@ + decimal(i + 1) + " 缺少画面提示词"@,
            )
        }),
{
    lemma_scenes_problem_at(storyboard.scenes@, 0, i);
}

/// The texts that are compared are those without their white space.
pub proof fn law_compared_texts(value: &str, r: String, plain: String)
    requires
        call_ensures(compact_text, (value,), r),
        call_ensures(without_whitespace, (value,), plain),
    ensures
        r@ == plain@,
{
}

} // verus!
