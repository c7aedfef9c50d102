//! From generated scenes to the timeline of the video.
use crate::domain::{
    AspectRatio, CaptionCue, Project, ProjectVersion, RenderScene, RenderSpec, TransitionKind,
};
use crate::ids::Id;
use crate::text::str_eq;
use vstd::prelude::*;
use vstd::string::*;

verus! {

/// A scene whose illustration, narration and captions exist.
#[derive(Clone, Debug)]
pub struct GeneratedScene {
    pub scene_id: Id,
    pub sequence: i32,
    pub image_url: String,
    pub audio_url: String,
    pub on_screen_text: Option<String>,
    pub transition: TransitionKind,
    pub duration_ms: i64,
    pub captions: Vec<CaptionCue>,
}

/// Frames per second of every video.
pub const FPS: i32 = 30;

/// Width and height for a stored aspect ratio; what is not known counts as landscape.
pub open spec fn stored_size(aspect_ratio: Seq<char>) -> (i32, i32) {
    if aspect_ratio == "9:16"@ {
        (1080, 1920)
    } else if aspect_ratio == "1:1"@ {
        (1080, 1080)
    } else {
        (1920, 1080)
    }
}

/// The transition that a stored text stands for; what is not known counts as a fade.
pub open spec fn stored_transition(value: Seq<char>) -> TransitionKind {
    if value == "slide"@ {
        TransitionKind::Slide
    } else if value == "wipe"@ {
        TransitionKind::Wipe
    } else if value == "none"@ {
        TransitionKind::Absent
    } else {
        TransitionKind::Fade
    }
}

/// The frames that a scene with `duration_ms` of audio takes: a quarter of a second more
/// than the audio, rounded down to whole frames, and a second at least.
pub open spec fn frame_count(duration_ms: int) -> int {
    let frames = (duration_ms + 250) * FPS / 1000;
    if frames > FPS {
        frames
    } else {
        FPS as int
    }
}

/// The frame at which the scene at `index` starts.
pub open spec fn start_of(scenes: Seq<GeneratedScene>, index: int) -> int
    decreases index,
{
    if index <= 0 {
        0
    } else {
        start_of(scenes, index - 1) + frame_count(scenes[index - 1].duration_ms as int)
    }
}

/// Whether every frame number of the timeline is a 64-bit integer, and each number on the
/// way to it.
pub open spec fn timeline_fits(scenes: Seq<GeneratedScene>) -> bool {
    &&& forall|i: int|
        #![trigger scenes[i]]
        0 <= i < scenes.len() ==> i64::MIN <= scenes[i].duration_ms + 250 <= i64::MAX && i64::MIN
            <= (scenes[i].duration_ms + 250) * FPS <= i64::MAX
    &&& start_of(scenes, scenes.len() as int) <= i64::MAX
}

/// A scene on the timeline, from frame `start` on.
pub open spec fn placed(scene: GeneratedScene, start: int) -> RenderScene {
    RenderScene {
        id: scene.scene_id,
        sequence: scene.sequence,
        start_frame: start as i64,
        duration_in_frames: frame_count(scene.duration_ms as int) as i64,
        image_url: scene.image_url,
        audio_url: scene.audio_url,
        on_screen_text: scene.on_screen_text,
        transition: scene.transition,
        captions: scene.captions,
    }
}

/// Whether `spec` is the render specification of a version of a project with these scenes.
pub open spec fn is_render_spec(
    spec: RenderSpec,
    project: Project,
    version: ProjectVersion,
    scenes: Seq<GeneratedScene>,
) -> bool {
    &&& spec.project_id == project.id
    &&& spec.version == version.version
    &&& (spec.width, spec.height) == stored_size(project.aspect_ratio@)
    &&& spec.fps == FPS
    &&& spec.background_color@ == "#0B1020"@
    &&& spec.scenes@ == Seq::new(
        scenes.len(),
        |i: int| placed(scenes[i], start_of(scenes, i)),
    )
}

pub fn render_dimensions(aspect_ratio: &str) -> (r: (i32, i32))
    ensures
        r == stored_size(aspect_ratio@),
{
    if str_eq(aspect_ratio, "9:16") {
        (1080, 1920)
    } else if str_eq(aspect_ratio, "1:1") {
        (1080, 1080)
    } else {
        (1920, 1080)
    }
}

pub fn parse_transition(value: &str) -> (r: TransitionKind)
    ensures
        r == stored_transition(value@),
{
    if str_eq(value, "slide") {
        TransitionKind::Slide
    } else if str_eq(value, "wipe") {
        TransitionKind::Wipe
    } else if str_eq(value, "none") {
        TransitionKind::Absent
    } else {
        TransitionKind::Fade
    }
}

fn scene_frames(duration_ms: i64) -> (r: i64)
    requires
        i64::MIN <= duration_ms + 250 <= i64::MAX,
        i64::MIN <= (duration_ms + 250) * FPS <= i64::MAX,
    ensures
        r == frame_count(duration_ms as int),
{
    let scaled: i64 = (duration_ms + 250) * 30;
    if scaled > 30_000 {
        scaled / 1000
    } else {
        30
    }
}

proof fn lemma_starts_grow(scenes: Seq<GeneratedScene>, i: int, j: int)
    requires
        0 <= i <= j,
    ensures
        0 <= start_of(scenes, i) <= start_of(scenes, j),
    decreases j,
{
    if i < j {
        lemma_starts_grow(scenes, i, j - 1);
    } else if j > 0 {
        lemma_starts_grow(scenes, i - 1, j - 1);
    }
}

/// Whether the timeline of `scenes` can be numbered.
pub fn can_place(scenes: &Vec<GeneratedScene>) -> (r: bool)
    ensures
        r == timeline_fits(scenes@),
{
    let mut total: i128 = 0;
    let mut i: usize = 0;
    while i < scenes.len()
        invariant
            i <= scenes@.len(),
            total == start_of(scenes@, i as int),
            0 <= total <= i64::MAX,
            forall|k: int|
                #![trigger scenes@[k]]
                0 <= k < i ==> i64::MIN <= scenes@[k].duration_ms + 250 <= i64::MAX && i64::MIN
                    <= (scenes@[k].duration_ms + 250) * FPS <= i64::MAX,
        decreases scenes@.len() - i,
    {
        let extended: i128 = scenes[i].duration_ms as i128 + 250;
        let scaled: i128 = extended * 30;
        if extended > i64::MAX as i128 || scaled < i64::MIN as i128 || scaled > i64::MAX as i128 {
            assert(!timeline_fits(scenes@)) by {
                let s = scenes@[i as int];
            }
            return false;
        }
        let frames: i64 = scene_frames(scenes[i].duration_ms);
        total = total + frames as i128;
        i += 1;
        if total > i64::MAX as i128 {
            proof {
                lemma_starts_grow(scenes@, i as int, scenes@.len() as int);
            }
            return false;
        }
    }
    true
}

/// The scenes one after the other, each starting where the one before it ends.
pub fn place_scenes(generated: Vec<GeneratedScene>) -> (r: Vec<RenderScene>)
    requires
        timeline_fits(generated@),
    ensures
        r@ == Seq::new(
            generated@.len(),
            |i: int| placed(generated@[i], start_of(generated@, i)),
        ),
{
    let ghost scenes = generated@;
    let mut cursor: i64 = 0;
    let mut out: Vec<RenderScene> = Vec::new();
    for scene in it: generated
        invariant
            it.seq() == scenes,
            timeline_fits(scenes),
            cursor == start_of(scenes, it.index()),
            out@ == Seq::new(it.index() as nat, |i: int| placed(scenes[i], start_of(scenes, i))),
    {
        proof {
            assert(scene == scenes[it.index()]);
            lemma_starts_grow(scenes, it.index() + 1, scenes.len() as int);
            lemma_starts_grow(scenes, it.index(), scenes.len() as int);
        }
        let frames: i64 = scene_frames(scene.duration_ms);
        out.push(
            RenderScene {
                id: scene.scene_id,
                sequence: scene.sequence,
                start_frame: cursor,
                duration_in_frames: frames,
                image_url: scene.image_url,
                audio_url: scene.audio_url,
                on_screen_text: scene.on_screen_text,
                transition: scene.transition,
                captions: scene.captions,
            },
        );
        cursor = cursor + frames;
    }
    out
}

/// The render specification of a version of a project with the given scenes.
pub fn render_spec(
    project: &Project,
    version: &ProjectVersion,
    generated: Vec<GeneratedScene>,
) -> (r: RenderSpec)
    requires
        timeline_fits(generated@),
    ensures
        is_render_spec(r, *project, *version, generated@),
{
    let (width, height) = render_dimensions(project.aspect_ratio.as_str());
    let scenes = place_scenes(generated);
    RenderSpec {
        project_id: project.id,
        version: version.version,
        width,
        height,
        fps: FPS,
        background_color: "#0B1020".to_owned(),
        scenes,
    }
}

/// The scenes of a timeline follow each other without a gap or an overlap, the first starts
/// at frame 0, each takes a second at least, and none ends before its narration does.
pub proof fn law_timeline_without_gaps(
    spec: RenderSpec,
    project: Project,
    version: ProjectVersion,
    scenes: Seq<GeneratedScene>,
)
    requires
        timeline_fits(scenes),
        is_render_spec(spec, project, version, scenes),
    ensures
        spec.scenes@.len() == scenes.len(),
        scenes.len() > 0 ==> spec.scenes@[0].start_frame == 0,
        forall|i: int|
            #![trigger spec.scenes@[i]]
            0 <= i < scenes.len() ==> {
                &&& spec.scenes@[i].duration_in_frames >= spec.fps
                &&& spec.scenes@[i].duration_in_frames * 1000 > scenes[i].duration_ms * spec.fps
            },
        forall|i: int, j: int|
            #![trigger spec.scenes@[i], spec.scenes@[j]]
            0 <= i < scenes.len() && j == i + 1 && j < scenes.len() ==> spec.scenes@[j].start_frame
                == spec.scenes@[i].start_frame + spec.scenes@[i].duration_in_frames,
{
    assert forall|i: int| #![trigger spec.scenes@[i]] 0 <= i < scenes.len() implies {
        &&& spec.scenes@[i].duration_in_frames >= spec.fps
        &&& spec.scenes@[i].duration_in_frames * 1000 > scenes[i].duration_ms * spec.fps
        &&& spec.scenes@[i].start_frame == start_of(scenes, i)
        &&& spec.scenes@[i].duration_in_frames == frame_count(scenes[i].duration_ms as int)
    } by {
        lemma_starts_grow(scenes, i, scenes.len() as int);
        lemma_starts_grow(scenes, i + 1, scenes.len() as int);
        assert(spec.scenes@[i] == placed(scenes[i], start_of(scenes, i)));
    }
}

/// The frames of a video have the size that its aspect ratio asked for.
pub proof fn law_size_of_stored_ratio(ratio: AspectRatio)
    ensures
        stored_size(ratio.stored()) == ratio.size(),
{
    reveal_strlit("16:9");
    reveal_strlit("9:16");
    reveal_strlit("1:1");
    assert("16:9"@[0] != "9:16"@[0]);
    assert("16:9"@.len() != "1:1"@.len());
    assert("9:16"@.len() != "1:1"@.len());
}

/// A transition that was stored is read back as it was.
pub proof fn law_transition_round_trip(kind: TransitionKind)
    ensures
        stored_transition(kind.stored()) == kind,
{
    reveal_strlit("fade");
    reveal_strlit("slide");
    reveal_strlit("wipe");
    reveal_strlit("none");
    assert("fade"@[0] != "slide"@[0] && "fade"@[0] != "wipe"@[0] && "fade"@[0] != "none"@[0]);
    assert("slide"@[0] != "wipe"@[0] && "slide"@[0] != "none"@[0] && "wipe"@[0] != "none"@[0]);
}

/// The render specification of the same scenes is always the same.
pub proof fn law_render_spec_is_determined(
    spec: RenderSpec,
    again: RenderSpec,
    project: Project,
    version: ProjectVersion,
    scenes: Seq<GeneratedScene>,
)
    requires
        is_render_spec(spec, project, version, scenes),
        is_render_spec(again, project, version, scenes),
    ensures
        spec.project_id == again.project_id,
        spec.version == again.version,
        spec.width == again.width && spec.height == again.height && spec.fps == again.fps,
        spec.background_color@ == again.background_color@,
        spec.scenes@ == again.scenes@,
{
}

/// Each scene that is placed carries what was generated for it, and nothing of another: its own
/// identifier, number, illustration, narration, text, transition and captions.
pub proof fn law_placed_scenes_keep_their_content(
    generated: Vec<GeneratedScene>,
    placed: Vec<RenderScene>,
)
    requires
        timeline_fits(generated@),
        call_ensures(place_scenes, (generated,), placed),
    ensures
        placed@.len() == generated@.len(),
        forall|i: int|
            #![trigger placed@[i]]
            #![trigger generated@[i]]
            0 <= i < generated@.len() ==> {
                &&& placed@[i].id == generated@[i].scene_id
                &&& placed@[i].sequence == generated@[i].sequence
                &&& placed@[i].image_url == generated@[i].image_url
                &&& placed@[i].audio_url == generated@[i].audio_url
                &&& placed@[i].on_screen_text == generated@[i].on_screen_text
                &&& placed@[i].transition == generated@[i].transition
                &&& placed@[i].captions == generated@[i].captions
            },
{
}

/// The render specification of a version is of that version of the project, plays at 30 frames a
/// second before the one background, and shows the scenes that were generated, each with its own
/// content, in the order in which they were given.
pub proof fn law_render_spec_keeps_the_scenes(
    project: Project,
    version: ProjectVersion,
    generated: Vec<GeneratedScene>,
    spec: RenderSpec,
)
    requires
        timeline_fits(generated@),
        call_ensures(render_spec, (&project, &version, generated), spec),
    ensures
        spec.project_id == project.id,
        spec.version == version.version,
        spec.fps == 30,
        spec.background_color@ == "#0B1020"@,
        spec.scenes@.len() == generated@.len(),
        forall|i: int|
            #![trigger spec.scenes@[i]]
            #![trigger generated@[i]]
            0 <= i < generated@.len() ==> {
                &&& spec.scenes@[i].id == generated@[i].scene_id
                &&& spec.scenes@[i].sequence == generated@[i].sequence
                &&& spec.scenes@[i].image_url == generated@[i].image_url
                &&& spec.scenes@[i].audio_url == generated@[i].audio_url
                &&& spec.scenes@[i].on_screen_text == generated@[i].on_screen_text
                &&& spec.scenes@[i].transition == generated@[i].transition
                &&& spec.scenes@[i].captions == generated@[i].captions
            },
{
}

/// A scene takes the whole frames of its narration and a quarter of a second, and not one more,
/// but a second at least; the first starts at frame 0, and each other where the one before it
/// ends.
pub proof fn law_frames_of_scenes(
    project: Project,
    version: ProjectVersion,
    generated: Vec<GeneratedScene>,
    spec: RenderSpec,
    i: int,
)
    requires
        timeline_fits(generated@),
        call_ensures(render_spec, (&project, &version, generated), spec),
        0 <= i < generated@.len(),
    ensures
        ({
            let frames = spec.scenes@[i].duration_in_frames;
            let length = generated@[i].duration_ms + 250;
            &&& frames >= 30
            &&& frames > 30 ==> frames * 1000 <= length * 30
            &&& length * 30 < (frames + 1) * 1000
            &&& i == 0 ==> spec.scenes@[i].start_frame == 0
            &&& i > 0 ==> spec.scenes@[i].start_frame == spec.scenes@[i - 1].start_frame
                + spec.scenes@[i - 1].duration_in_frames
        }),
{
    law_timeline_without_gaps(spec, project, version, generated@);
    lemma_starts_grow(generated@, i, generated@.len() as int);
    lemma_starts_grow(generated@, i + 1, generated@.len() as int);
    assert(spec.scenes@[i] == placed(generated@[i], start_of(generated@, i)));
    if i > 0 {
        assert(spec.scenes@[i - 1] == placed(generated@[i - 1], start_of(generated@, i - 1)));
        lemma_starts_grow(generated@, i - 1, generated@.len() as int);
    }
}

/// The frames have the proportions of the aspect ratio, and their shorter side is 1080.
pub proof fn law_frames_have_their_ratio(aspect_ratio: &str, size: (i32, i32))
    requires
        call_ensures(render_dimensions, (aspect_ratio,), size),
    ensures
        aspect_ratio@ == "9:16"@ ==> size.0 * 16 == size.1 * 9 && size.0 == 1080,
        aspect_ratio@ == "1:1"@ ==> size.0 == size.1 && size.0 == 1080,
        aspect_ratio@ != "9:16"@ && aspect_ratio@ != "1:1"@ ==> size.0 * 9 == size.1 * 16 && size.1
            == 1080,
{
    reveal_strlit("9:16");
    reveal_strlit("1:1");
    assert("9:16"@.len() != "1:1"@.len());
}

/// The transitions are read by their names, and any other text is a fade.
pub proof fn law_transition_names(value: &str, r: TransitionKind)
    requires
        call_ensures(parse_transition, (value,), r),
    ensures
        r == TransitionKind::Slide <==> value@ == "slide"@,
        r == TransitionKind::Wipe <==> value@ == "wipe"@,
        r == TransitionKind::Absent <==> value@ == "none"@,
        r == TransitionKind::Fade <==> value@ != "slide"@ && value@ != "wipe"@ && value@ != "none"@,
{
    reveal_strlit("slide");
    reveal_strlit("wipe");
    reveal_strlit("none");
    assert("slide"@[0] != "wipe"@[0] && "slide"@[0] != "none"@[0] && "wipe"@[0] != "none"@[0]);
}

/// A transition is stored under its name and read back from it as it was.
pub proof fn law_stored_transition_is_read_back(
    kind: TransitionKind,
    stored: &'static str,
    read: TransitionKind,
)
    requires
        call_ensures(TransitionKind::database_value, (&kind,), stored),
        call_ensures(parse_transition, (stored,), read),
    ensures
        read == kind,
        kind == TransitionKind::Fade ==> stored@ == "fade"@,
        kind == TransitionKind::Absent ==> stored@ == "none"@,
{
    law_transition_round_trip(kind);
}

proof fn lemma_start_bounded(scenes: Seq<GeneratedScene>, limit: int, index: int)
    requires
        0 <= index <= scenes.len(),
        limit >= 30,
        forall|i: int|
            #![trigger scenes[i]]
            0 <= i < scenes.len() ==> frame_count(scenes[i].duration_ms as int) <= limit,
    ensures
        start_of(scenes, index) <= index * limit,
    decreases index,
{
    if index > 0 {
        lemma_start_bounded(scenes, limit, index - 1);
        let scene = scenes[index - 1];
        assert((index - 1) * limit + limit == index * limit) by (nonlinear_arith);
    }
}

/// Scenes can be placed where none is longer than a year and there are at most a hundred
/// thousand of them; they cannot where one is so long that its frames have no number.
pub proof fn law_ordinary_scenes_can_be_placed(scenes: Vec<GeneratedScene>, r: bool)
    requires
        call_ensures(can_place, (&scenes,), r),
    ensures
        scenes@.len() <= 100_000 && (forall|i: int|
            #![trigger scenes@[i]]
            0 <= i < scenes@.len() ==> 0 <= scenes@[i].duration_ms <= 31_536_000_000) ==> r,
        (exists|i: int|
            #![trigger scenes@[i]]
            0 <= i < scenes@.len() && (scenes@[i].duration_ms + 250) * 30 > i64::MAX) ==> !r,
{
    if scenes@.len() <= 100_000 && (forall|i: int|
        #![trigger scenes@[i]]
        0 <= i < scenes@.len() ==> 0 <= scenes@[i].duration_ms <= 31_536_000_000) {
        assert forall|i: int| #![trigger scenes@[i]] 0 <= i < scenes@.len() implies frame_count(
            scenes@[i].duration_ms as int,
        ) <= 946_080_008 by {}
        lemma_start_bounded(scenes@, 946_080_008, scenes@.len() as int);
        assert(scenes@.len() * 946_080_008 <= 100_000 * 946_080_008) by (nonlinear_arith)
            requires
                scenes@.len() <= 100_000,
        ;
    }
}

} // verus!
