//! Stable keys of generation tasks, storage keys and prompts.
use crate::db::SceneRecord;
use crate::domain::{Project, ProjectVersion, StyleBible};
use crate::hashing::{content_hash, content_hash_of, law_content_hash_is_hex};
use crate::ids::{hyphenated, is_hex, law_hyphenated_injective, law_hyphenated_shape, Id};
use crate::text::{
    decimal, decimal_i64, join, joined, law_decimal_round_trip, lemma_decimal_without_colon,
    lemma_joined_says, lemma_same_frame, lemma_says, lemma_says_within, says, texts,
};
use vstd::prelude::*;
use vstd::string::*;
use vstd::utf8::encode_utf8;

verus! {

/// The key of a task: its stage and the hash of what it is made of.
pub open spec fn task_key(stage: Seq<char>, material: Seq<char>) -> Seq<char> {
    stage + ":"@ + content_hash_of(encode_utf8(material))
}

/// What every material starts with: the project and the number of its version.
pub open spec fn material_head(project: Project, version: ProjectVersion) -> Seq<char> {
    hyphenated(project.id.value) + ":"@ + decimal(version.version as int)
}

/// What every material of a scene starts with.
pub open spec fn scene_material_head(
    project: Project,
    version: ProjectVersion,
    scene: SceneRecord,
) -> Seq<char> {
    material_head(project, version) + ":scene:"@ + hyphenated(scene.id.value)
}

pub open spec fn script_material(project: Project, version: ProjectVersion) -> Seq<char> {
    material_head(project, version) + ":script:"@ + project.text_provider@ + ":"@
        + project.text_model@ + ":"@ + "script-v1"@
}

/// `input` is the serialized script that the storyboard is made for.
pub open spec fn storyboard_material(
    project: Project,
    version: ProjectVersion,
    input: Seq<u8>,
) -> Seq<char> {
    material_head(project, version) + ":storyboard:"@ + project.text_provider@ + ":"@
        + project.text_model@ + ":"@ + "storyboard-v1"@ + ":"@ + content_hash_of(input)
}

pub open spec fn image_material(
    project: Project,
    version: ProjectVersion,
    scene: SceneRecord,
    prompt: Seq<char>,
) -> Seq<char> {
    scene_material_head(project, version, scene) + ":image:"@
        + project.image_provider@ + ":"@ + project.image_model@ + ":"@ + "image-v1"@ + ":"@
        + content_hash_of(encode_utf8(prompt))
}

pub open spec fn speech_material(
    project: Project,
    version: ProjectVersion,
    scene: SceneRecord,
) -> Seq<char> {
    scene_material_head(project, version, scene) + ":speech:"@
        + project.speech_provider@ + ":"@ + project.speech_model@ + ":"@ + project.voice@ + ":"@
        + "speech-v1"@ + ":"@ + content_hash_of(encode_utf8(scene.narration_text@))
}

/// `checksum` is that of the audio to be aligned.
pub open spec fn captions_material(
    project: Project,
    version: ProjectVersion,
    scene: SceneRecord,
    checksum: Seq<char>,
) -> Seq<char> {
    scene_material_head(project, version, scene) + ":captions:"@
        + project.transcription_provider@ + ":"@ + project.transcription_model@ + ":"@
        + "transcription-v1"@ + ":"@ + checksum + ":"@ + content_hash_of(
        encode_utf8(scene.narration_text@),
    )
}

/// `hash` is that of the serialized render specification.
pub open spec fn render_material(
    project: Project,
    version: ProjectVersion,
    hash: Seq<char>,
) -> Seq<char> {
    material_head(project, version) + ":render:"@ + "render-v1"@ + ":"@ + hash
}

/// The prompt of an illustration: what the scene asks for, then the style of the whole video.
pub open spec fn illustration_prompt(scene: SceneRecord, style: StyleBible) -> Seq<char> {
    scene.visual_prompt@ + "\n统一艺术方向："@ + style.art_direction@ + "\n色板："@ + joined(
        texts(style.color_palette@),
        ", "@,
    ) + "\n画面规则："@ + joined(texts(style.image_rules@), "；"@) + "\n禁止内容："@
        + style.negative_prompt@ + "\n不要生成任何文字、水印或标志。"@
}

/// Where the files of a scene are stored.
pub open spec fn scene_directory(project_id: Id, scene_id: Id) -> Seq<char> {
    "projects/"@ + hyphenated(project_id.value) + "/scenes/"@ + hyphenated(scene_id.value)
}

/// Where the video with a render specification of hash `hash` is stored.
pub open spec fn render_key(project_id: Id, hash: Seq<char>) -> Seq<char> {
    "projects/"@ + hyphenated(project_id.value) + "/renders/"@ + hash + ".mp4"@
}

/// The key of a task of `stage` over `material`. Whatever the length of the material, the
/// key is 65 characters longer than the name of the stage.
pub fn stable_task_key(stage: &str, material: &str) -> (r: String)
    ensures
        r@ == task_key(stage@, material@),
        r@.len() == stage@.len() + 65,
{
    let hash = content_hash(material.as_bytes());
    let mut key = stage.to_owned();
    key.append(":");
    key.append(hash.as_str());
    proof {
        reveal_strlit(":");
    }
    key
}

fn head(project: &Project, version: &ProjectVersion) -> (r: String)
    ensures
        r@ == material_head(*project, *version),
{
    let id = project.id.text();
    let number = decimal_i64(version.version as i64);
    let mut out = id;
    out.append(":");
    out.append(number.as_str());
    out
}

pub fn script_key(project: &Project, version: &ProjectVersion) -> (r: String)
    ensures
        r@ == task_key("script"@, script_material(*project, *version)),
        r@.len() <= 256,
{
    let mut material = head(project, version);
    material.append(":script:");
    material.append(project.text_provider.as_str());
    material.append(":");
    material.append(project.text_model.as_str());
    material.append(":");
    material.append("script-v1");
    proof {
        reveal_strlit("script");
    }
    stable_task_key("script", material.as_str())
}

pub fn storyboard_key(project: &Project, version: &ProjectVersion, input: &[u8]) -> (r: String)
    ensures
        r@ == task_key("storyboard"@, storyboard_material(*project, *version, input@)),
        r@.len() <= 256,
{
    let hash = content_hash(input);
    let mut material = head(project, version);
    material.append(":storyboard:");
    material.append(project.text_provider.as_str());
    material.append(":");
    material.append(project.text_model.as_str());
    material.append(":");
    material.append("storyboard-v1");
    material.append(":");
    material.append(hash.as_str());
    proof {
        reveal_strlit("storyboard");
    }
    stable_task_key("storyboard", material.as_str())
}

fn scene_head(project: &Project, version: &ProjectVersion, scene: &SceneRecord) -> (r: String)
    ensures
        r@ == scene_material_head(*project, *version, *scene),
{
    let id = scene.id.text();
    let mut out = head(project, version);
    out.append(":scene:");
    out.append(id.as_str());
    out
}

pub fn image_key(
    project: &Project,
    version: &ProjectVersion,
    scene: &SceneRecord,
    prompt: &str,
) -> (r: String)
    ensures
        r@ == task_key("image"@, image_material(*project, *version, *scene, prompt@)),
        r@.len() <= 256,
{
    let hash = content_hash(prompt.as_bytes());
    let mut material = scene_head(project, version, scene);
    material.append(":image:");
    material.append(project.image_provider.as_str());
    material.append(":");
    material.append(project.image_model.as_str());
    material.append(":");
    material.append("image-v1");
    material.append(":");
    material.append(hash.as_str());
    proof {
        reveal_strlit("image");
    }
    stable_task_key("image", material.as_str())
}

pub fn speech_key(project: &Project, version: &ProjectVersion, scene: &SceneRecord) -> (r: String)
    ensures
        r@ == task_key("speech"@, speech_material(*project, *version, *scene)),
        r@.len() <= 256,
{
    let hash = content_hash(scene.narration_text.as_str().as_bytes());
    let mut material = scene_head(project, version, scene);
    material.append(":speech:");
    material.append(project.speech_provider.as_str());
    material.append(":");
    material.append(project.speech_model.as_str());
    material.append(":");
    material.append(project.voice.as_str());
    material.append(":");
    material.append("speech-v1");
    material.append(":");
    material.append(hash.as_str());
    proof {
        reveal_strlit("speech");
    }
    stable_task_key("speech", material.as_str())
}

pub fn captions_key(
    project: &Project,
    version: &ProjectVersion,
    scene: &SceneRecord,
    checksum: &str,
) -> (r: String)
    ensures
        r@ == task_key(
            "transcription"@,
            captions_material(*project, *version, *scene, checksum@),
        ),
        r@.len() <= 256,
{
    let hash = content_hash(scene.narration_text.as_str().as_bytes());
    let mut material = scene_head(project, version, scene);
    material.append(":captions:");
    material.append(project.transcription_provider.as_str());
    material.append(":");
    material.append(project.transcription_model.as_str());
    material.append(":");
    material.append("transcription-v1");
    material.append(":");
    material.append(checksum);
    material.append(":");
    material.append(hash.as_str());
    proof {
        reveal_strlit("transcription");
    }
    stable_task_key("transcription", material.as_str())
}

pub fn render_task_key(project: &Project, version: &ProjectVersion, hash: &str) -> (r: String)
    ensures
        r@ == task_key("render"@, render_material(*project, *version, hash@)),
        r@.len() <= 256,
{
    let mut material = head(project, version);
    material.append(":render:");
    material.append("render-v1");
    material.append(":");
    material.append(hash);
    proof {
        reveal_strlit("render");
    }
    stable_task_key("render", material.as_str())
}

/// The prompt of the illustration of a scene.
pub fn image_prompt(scene: &SceneRecord, style: &StyleBible) -> (r: String)
    ensures
        r@ == illustration_prompt(*scene, *style),
{
    let palette = join(&style.color_palette, ", ");
    let rules = join(&style.image_rules, "；");
    let mut prompt = scene.visual_prompt.clone();
    prompt.append("\n统一艺术方向：");
    prompt.append(style.art_direction.as_str());
    prompt.append("\n色板：");
    prompt.append(palette.as_str());
    prompt.append("\n画面规则：");
    prompt.append(rules.as_str());
    prompt.append("\n禁止内容：");
    prompt.append(style.negative_prompt.as_str());
    prompt.append("\n不要生成任何文字、水印或标志。");
    prompt
}

/// The storage key of the file `name` of a scene.
pub fn scene_file_key(project_id: Id, scene_id: Id, name: &str) -> (r: String)
    ensures
        r@ == scene_directory(project_id, scene_id) + "/"@ + name@,
{
    let project = project_id.text();
    let scene = scene_id.text();
    let mut key = "projects/".to_owned();
    key.append(project.as_str());
    key.append("/scenes/");
    key.append(scene.as_str());
    key.append("/");
    key.append(name);
    key
}

/// The storage key of a rendered video.
pub fn render_output_key(project_id: Id, hash: &str) -> (r: String)
    ensures
        r@ == render_key(project_id, hash@),
{
    let project = project_id.text();
    let mut key = "projects/".to_owned();
    key.append(project.as_str());
    key.append("/renders/");
    key.append(hash);
    key.append(".mp4");
    key
}

proof fn lemma_same_until_colon(a: Seq<char>, b: Seq<char>, x: Seq<char>, y: Seq<char>)
    requires
        a + ":"@ + x == b + ":"@ + y,
        forall|i: int| 0 <= i < a.len() ==> #[trigger] a[i] != ':',
        forall|i: int| 0 <= i < b.len() ==> #[trigger] b[i] != ':',
    ensures
        a == b,
        x == y,
{
    reveal_strlit(":");
    let s = a + ":"@ + x;
    let t = b + ":"@ + y;
    assert(s[a.len() as int] == ':');
    assert(t[b.len() as int] == ':');
    if a.len() < b.len() {
        assert(t[a.len() as int] == b[a.len() as int]);
    }
    if b.len() < a.len() {
        assert(s[b.len() as int] == a[b.len() as int]);
    }
    assert(a =~= s.take(a.len() as int));
    assert(b =~= t.take(b.len() as int));
    assert(x =~= s.skip(a.len() as int + 1));
    assert(y =~= t.skip(b.len() as int + 1));
}

/// Tasks of different stages never share a key, whatever they are made of: the names of
/// stages hold no colon.
pub proof fn law_keys_of_stages_differ(
    stage: Seq<char>,
    material: Seq<char>,
    other_stage: Seq<char>,
    other_material: Seq<char>,
)
    requires
        forall|i: int| 0 <= i < stage.len() ==> #[trigger] stage[i] != ':',
        forall|i: int| 0 <= i < other_stage.len() ==> #[trigger] other_stage[i] != ':',
        stage != other_stage,
    ensures
        task_key(stage, material) != task_key(other_stage, other_material),
{
    if task_key(stage, material) == task_key(other_stage, other_material) {
        lemma_same_until_colon(
            stage,
            other_stage,
            content_hash_of(encode_utf8(material)),
            content_hash_of(encode_utf8(other_material)),
        );
    }
}

/// Materials that start alike, up to a colon behind the version, are of the same project
/// and the same version of it.
pub proof fn law_material_names_version(
    project: Project,
    version: ProjectVersion,
    rest: Seq<char>,
    other_project: Project,
    other_version: ProjectVersion,
    other_rest: Seq<char>,
)
    requires
        material_head(project, version) + ":"@ + rest == material_head(
            other_project,
            other_version,
        ) + ":"@ + other_rest,
    ensures
        project.id == other_project.id,
        version.version == other_version.version,
        rest == other_rest,
{
    let a = hyphenated(project.id.value);
    let b = hyphenated(other_project.id.value);
    let n = decimal(version.version as int);
    let m = decimal(other_version.version as int);
    law_hyphenated_shape(project.id.value);
    law_hyphenated_shape(other_project.id.value);
    let s = material_head(project, version) + ":"@ + rest;
    assert(a =~= s.take(36));
    assert(b =~= s.take(36));
    law_hyphenated_injective(project.id.value, other_project.id.value);
    reveal_strlit(":");
    assert(n + ":"@ + rest =~= s.skip(37));
    assert(m + ":"@ + other_rest =~= s.skip(37));
    lemma_decimal_without_colon(version.version as int);
    lemma_decimal_without_colon(other_version.version as int);
    lemma_same_until_colon(n, m, rest, other_rest);
    law_decimal_round_trip(version.version as i64);
    law_decimal_round_trip(other_version.version as i64);
}

proof fn lemma_scene_head_names_scene(
    project: Project,
    version: ProjectVersion,
    scene: SceneRecord,
    other_project: Project,
    other_version: ProjectVersion,
    other_scene: SceneRecord,
    s: Seq<char>,
)
    requires
        scene_material_head(project, version, scene).is_prefix_of(s),
        scene_material_head(other_project, other_version, other_scene).is_prefix_of(s),
    ensures
        project.id == other_project.id,
        version.version == other_version.version,
        scene.id == other_scene.id,
{
    reveal_strlit(":scene:");
    reveal_strlit("scene:");
    reveal_strlit(":");
    let a = scene_material_head(project, version, scene);
    let b = scene_material_head(other_project, other_version, other_scene);
    assert(":scene:"@ =~= ":"@ + "scene:"@);
    let x = "scene:"@ + hyphenated(scene.id.value) + s.skip(a.len() as int);
    let y = "scene:"@ + hyphenated(other_scene.id.value) + s.skip(b.len() as int);
    assert(s =~= a + s.skip(a.len() as int));
    assert(s =~= b + s.skip(b.len() as int));
    assert(material_head(project, version) + ":"@ + x =~= a + s.skip(a.len() as int));
    assert(material_head(other_project, other_version) + ":"@ + y =~= b + s.skip(b.len() as int));
    law_material_names_version(project, version, x, other_project, other_version, y);
    law_hyphenated_shape(scene.id.value);
    law_hyphenated_shape(other_scene.id.value);
    assert(hyphenated(scene.id.value) =~= x.subrange(6, 42));
    assert(hyphenated(other_scene.id.value) =~= y.subrange(6, 42));
    law_hyphenated_injective(scene.id.value, other_scene.id.value);
}

/// Two tasks of a scene over the same material are of the same scene in the same version of
/// the same project: a cached illustration, narration or caption file is never taken for that
/// of another scene.
pub proof fn law_scene_material_names_scene(
    project: Project,
    version: ProjectVersion,
    scene: SceneRecord,
    other_project: Project,
    other_version: ProjectVersion,
    other_scene: SceneRecord,
)
    ensures
        ({
            let same = project.id == other_project.id && version.version == other_version.version
                && scene.id == other_scene.id;
            &&& speech_material(project, version, scene) == speech_material(
                other_project,
                other_version,
                other_scene,
            ) ==> same
            &&& forall|prompt: Seq<char>, other_prompt: Seq<char>|
                #![auto]
                image_material(project, version, scene, prompt) == image_material(
                    other_project,
                    other_version,
                    other_scene,
                    other_prompt,
                ) ==> same
            &&& forall|checksum: Seq<char>, other_checksum: Seq<char>|
                #![auto]
                captions_material(project, version, scene, checksum) == captions_material(
                    other_project,
                    other_version,
                    other_scene,
                    other_checksum,
                ) ==> same
        }),
{
    let same = project.id == other_project.id && version.version == other_version.version
        && scene.id == other_scene.id;
    let a = scene_material_head(project, version, scene);
    let b = scene_material_head(other_project, other_version, other_scene);
    let s = speech_material(project, version, scene);
    if s == speech_material(other_project, other_version, other_scene) {
        assert(a.is_prefix_of(s));
        assert(b.is_prefix_of(s));
        lemma_scene_head_names_scene(
            project,
            version,
            scene,
            other_project,
            other_version,
            other_scene,
            s,
        );
    }
    assert forall|prompt: Seq<char>, other_prompt: Seq<char>|
        #![auto]
        image_material(project, version, scene, prompt) == image_material(
            other_project,
            other_version,
            other_scene,
            other_prompt,
        ) implies same by {
        let s = image_material(project, version, scene, prompt);
        assert(a.is_prefix_of(s));
        assert(b.is_prefix_of(image_material(other_project, other_version, other_scene, other_prompt)));
        lemma_scene_head_names_scene(
            project,
            version,
            scene,
            other_project,
            other_version,
            other_scene,
            s,
        );
    }
    assert forall|checksum: Seq<char>, other_checksum: Seq<char>|
        #![auto]
        captions_material(project, version, scene, checksum) == captions_material(
            other_project,
            other_version,
            other_scene,
            other_checksum,
        ) implies same by {
        let s = captions_material(project, version, scene, checksum);
        assert(a.is_prefix_of(s));
        assert(b.is_prefix_of(captions_material(other_project, other_version, other_scene, other_checksum)));
        lemma_scene_head_names_scene(
            project,
            version,
            scene,
            other_project,
            other_version,
            other_scene,
            s,
        );
    }
}

proof fn lemma_same_behind_last_colon(a: Seq<char>, b: Seq<char>, x: Seq<char>, y: Seq<char>)
    requires
        a + ":"@ + x == b + ":"@ + y,
        forall|i: int| 0 <= i < x.len() ==> #[trigger] x[i] != ':',
        forall|i: int| 0 <= i < y.len() ==> #[trigger] y[i] != ':',
    ensures
        a == b,
        x == y,
{
    reveal_strlit(":");
    let s = a + ":"@ + x;
    let t = b + ":"@ + y;
    assert(s[a.len() as int] == ':');
    assert(t[b.len() as int] == ':');
    assert(s.len() == a.len() + 1 + x.len() && t.len() == b.len() + 1 + y.len());
    if a.len() < b.len() {
        assert(s[b.len() as int] == x[b.len() - a.len() - 1]);
    }
    if b.len() < a.len() {
        assert(t[a.len() as int] == y[a.len() - b.len() - 1]);
    }
    assert(a =~= s.take(a.len() as int));
    assert(b =~= t.take(b.len() as int));
    assert(x =~= s.skip(a.len() as int + 1));
    assert(y =~= t.skip(b.len() as int + 1));
}

proof fn lemma_hash_without_colon(bytes: Seq<u8>)
    ensures
        forall|i: int| 0 <= i < content_hash_of(bytes).len() ==> #[trigger] content_hash_of(bytes)[i]
            != ':',
{
    law_content_hash_is_hex(bytes);
    assert forall|i: int| 0 <= i < content_hash_of(bytes).len() implies #[trigger]
        content_hash_of(bytes)[i] != ':' by {
        assert(is_hex(content_hash_of(bytes)[i]));
    }
}

/// What stands in the material of a scene behind the version: the scene, then `label` and the
/// rest.
spec fn scene_rest(scene: SceneRecord, label: Seq<char>, rest: Seq<char>) -> Seq<char> {
    "scene:"@ + hyphenated(scene.id.value) + label + rest
}

proof fn lemma_same_scene_rest(
    scene: SceneRecord,
    other: SceneRecord,
    label: Seq<char>,
    x: Seq<char>,
    y: Seq<char>,
)
    ensures
        scene_rest(scene, label, x) == scene_rest(other, label, y) <==> scene.id == other.id && x
            == y,
{
    let s = scene_rest(scene, label, x);
    let t = scene_rest(other, label, y);
    reveal_strlit("scene:");
    law_hyphenated_shape(scene.id.value);
    law_hyphenated_shape(other.id.value);
    if s == t {
        assert(hyphenated(scene.id.value) =~= s.subrange(6, 42));
        assert(hyphenated(other.id.value) =~= t.subrange(6, 42));
        law_hyphenated_injective(scene.id.value, other.id.value);
        assert(x =~= s.skip(42 + label.len() as int));
        assert(y =~= t.skip(42 + label.len() as int));
    }
}

proof fn lemma_same_version_rest(
    project: Project,
    version: ProjectVersion,
    rest: Seq<char>,
    other_project: Project,
    other_version: ProjectVersion,
    other_rest: Seq<char>,
)
    ensures
        material_head(project, version) + ":"@ + rest == material_head(
            other_project,
            other_version,
        ) + ":"@ + other_rest <==> project.id == other_project.id && version.version
            == other_version.version && rest == other_rest,
{
    if material_head(project, version) + ":"@ + rest == material_head(other_project, other_version)
        + ":"@ + other_rest {
        law_material_names_version(
            project,
            version,
            rest,
            other_project,
            other_version,
            other_rest,
        );
    }
}

proof fn lemma_same_hashed(
    before: Seq<char>,
    x: Seq<char>,
    y: Seq<char>,
    after: Seq<char>,
    bytes: Seq<u8>,
    other_bytes: Seq<u8>,
)
    ensures
        before + x + after + ":"@ + content_hash_of(bytes) == before + y + after + ":"@
            + content_hash_of(other_bytes) <==> x == y && content_hash_of(bytes)
            == content_hash_of(other_bytes),
{
    lemma_hash_without_colon(bytes);
    lemma_hash_without_colon(other_bytes);
    lemma_same_frame(before, x, y, after);
    if before + x + after + ":"@ + content_hash_of(bytes) == before + y + after + ":"@
        + content_hash_of(other_bytes) {
        lemma_same_behind_last_colon(
            before + x + after,
            before + y + after,
            content_hash_of(bytes),
            content_hash_of(other_bytes),
        );
    }
}

#[verifier::rlimit(40)]
proof fn lemma_speech_material(p: Project, v: ProjectVersion, a: SceneRecord)
    ensures
        speech_material(p, v, a) == material_head(p, v) + ":"@ + scene_rest(
            a,
            ":speech:"@,
            p.speech_provider@ + ":"@ + p.speech_model@ + ":"@ + p.voice@ + (":"@ + "speech-v1"@)
                + ":"@ + content_hash_of(encode_utf8(a.narration_text@)),
        ),
{
    reveal_strlit(":");
    reveal_strlit(":scene:");
    reveal_strlit("scene:");
    assert(":scene:"@ =~= ":"@ + "scene:"@);
    let x = p.speech_provider@ + ":"@ + p.speech_model@ + ":"@ + p.voice@ + (":"@ + "speech-v1"@)
        + ":"@ + content_hash_of(encode_utf8(a.narration_text@));
    assert(scene_material_head(p, v, a) =~= material_head(p, v) + ":"@ + ("scene:"@ + hyphenated(
        a.id.value,
    )));
    assert(speech_material(p, v, a) =~= scene_material_head(p, v, a) + ":speech:"@ + x);
    assert(speech_material(p, v, a) =~= material_head(p, v) + ":"@ + scene_rest(
        a,
        ":speech:"@,
        x,
    ));
}

#[verifier::rlimit(40)]
proof fn lemma_captions_material(
    p: Project,
    v: ProjectVersion,
    a: SceneRecord,
    checksum: Seq<char>,
)
    ensures
        captions_material(p, v, a, checksum) == material_head(p, v) + ":"@ + scene_rest(
            a,
            ":captions:"@,
            p.transcription_provider@ + ":"@ + p.transcription_model@ + (":"@
                + "transcription-v1"@) + ":"@ + checksum + ":"@ + content_hash_of(
                encode_utf8(a.narration_text@),
            ),
        ),
{
    reveal_strlit(":");
    reveal_strlit(":scene:");
    reveal_strlit("scene:");
    assert(":scene:"@ =~= ":"@ + "scene:"@);
    let x = p.transcription_provider@ + ":"@ + p.transcription_model@ + (":"@
        + "transcription-v1"@) + ":"@ + checksum + ":"@ + content_hash_of(
        encode_utf8(a.narration_text@),
    );
    assert(scene_material_head(p, v, a) =~= material_head(p, v) + ":"@ + ("scene:"@ + hyphenated(
        a.id.value,
    )));
    assert(captions_material(p, v, a, checksum) =~= scene_material_head(p, v, a) + ":captions:"@
        + x);
    assert(captions_material(p, v, a, checksum) =~= material_head(p, v) + ":"@ + scene_rest(
        a,
        ":captions:"@,
        x,
    ));
}

proof fn lemma_same_captions_rest(
    x: Seq<char>,
    y: Seq<char>,
    after: Seq<char>,
    checksum: Seq<char>,
    other_checksum: Seq<char>,
    text: Seq<u8>,
    other_text: Seq<u8>,
)
    requires
        forall|i: int| 0 <= i < checksum.len() ==> #[trigger] checksum[i] != ':',
        forall|i: int| 0 <= i < other_checksum.len() ==> #[trigger] other_checksum[i] != ':',
    ensures
        x + after + ":"@ + checksum + ":"@ + content_hash_of(text) == y + after + ":"@
            + other_checksum + ":"@ + content_hash_of(other_text) <==> x == y && checksum
            == other_checksum && content_hash_of(text) == content_hash_of(other_text),
{
    let front = x + after + ":"@ + checksum;
    let other_front = y + after + ":"@ + other_checksum;
    lemma_hash_without_colon(text);
    lemma_hash_without_colon(other_text);
    if front + ":"@ + content_hash_of(text) == other_front + ":"@ + content_hash_of(other_text) {
        lemma_same_behind_last_colon(
            front,
            other_front,
            content_hash_of(text),
            content_hash_of(other_text),
        );
        lemma_same_behind_last_colon(x + after, y + after, checksum, other_checksum);
        lemma_same_frame(Seq::empty(), x, y, after);
        assert(Seq::<char>::empty() + x + after =~= x + after);
        assert(Seq::<char>::empty() + y + after =~= y + after);
    }
}

/// A script is remembered by its project, the number of its version and the provider and model
/// that write it, and by nothing else of them: two keys are the hashes of materials that are the
/// same exactly where these are.
pub proof fn law_script_key_depends_on(
    p: Project,
    v: ProjectVersion,
    q: Project,
    w: ProjectVersion,
    r: String,
    s: String,
)
    requires
        call_ensures(script_key, (&p, &v), r),
        call_ensures(script_key, (&q, &w), s),
    ensures
        exists|one: Seq<char>, two: Seq<char>|
            #![trigger content_hash_of(encode_utf8(one)), content_hash_of(encode_utf8(two))]
            {
                &&& r@ == "script:"@ + content_hash_of(encode_utf8(one))
                &&& s@ == "script:"@ + content_hash_of(encode_utf8(two))
                &&& one == two <==> {
                    &&& p.id == q.id
                    &&& v.version == w.version
                    &&& p.text_provider@ + ":"@ + p.text_model@ == q.text_provider@ + ":"@
                        + q.text_model@
                }
            },
{
    reveal_strlit(":");
    reveal_strlit("script");
    reveal_strlit("script:");
    assert("script:"@ =~= "script"@ + ":"@);
    reveal_strlit(":script:");
    reveal_strlit("script:");
    reveal_strlit("script-v1");
    let one = script_material(p, v);
    let two = script_material(q, w);
    let x = p.text_provider@ + ":"@ + p.text_model@;
    let y = q.text_provider@ + ":"@ + q.text_model@;
    let after = ":"@ + "script-v1"@;
    assert(one =~= material_head(p, v) + ":"@ + ("script:"@ + x + after));
    assert(two =~= material_head(q, w) + ":"@ + ("script:"@ + y + after));
    lemma_same_version_rest(p, v, "script:"@ + x + after, q, w, "script:"@ + y + after);
    lemma_same_frame("script:"@, x, y, after);
    assert(content_hash_of(encode_utf8(one)) == content_hash_of(encode_utf8(one)));
    assert(content_hash_of(encode_utf8(two)) == content_hash_of(encode_utf8(two)));
}

/// A storyboard is remembered by its project, the number of its version, the provider and model
/// that make it, and the script that it is made for.
pub proof fn law_storyboard_key_depends_on(
    p: Project,
    v: ProjectVersion,
    input: &[u8],
    q: Project,
    w: ProjectVersion,
    other_input: &[u8],
    r: String,
    s: String,
)
    requires
        call_ensures(storyboard_key, (&p, &v, input), r),
        call_ensures(storyboard_key, (&q, &w, other_input), s),
    ensures
        exists|one: Seq<char>, two: Seq<char>|
            #![trigger content_hash_of(encode_utf8(one)), content_hash_of(encode_utf8(two))]
            {
                &&& r@ == "storyboard:"@ + content_hash_of(encode_utf8(one))
                &&& s@ == "storyboard:"@ + content_hash_of(encode_utf8(two))
                &&& one == two <==> {
                    &&& p.id == q.id
                    &&& v.version == w.version
                    &&& p.text_provider@ + ":"@ + p.text_model@ == q.text_provider@ + ":"@
                        + q.text_model@
                    &&& content_hash_of(input@) == content_hash_of(other_input@)
                }
            },
{
    reveal_strlit(":");
    reveal_strlit("storyboard");
    reveal_strlit("storyboard:");
    assert("storyboard:"@ =~= "storyboard"@ + ":"@);
    reveal_strlit(":storyboard:");
    let one = storyboard_material(p, v, input@);
    let two = storyboard_material(q, w, other_input@);
    let x = p.text_provider@ + ":"@ + p.text_model@;
    let y = q.text_provider@ + ":"@ + q.text_model@;
    let after = ":"@ + "storyboard-v1"@;
    let rest = "storyboard:"@ + x + after + ":"@ + content_hash_of(input@);
    let other_rest = "storyboard:"@ + y + after + ":"@ + content_hash_of(other_input@);
    assert(":storyboard:"@ =~= ":"@ + "storyboard:"@);
    assert(one =~= material_head(p, v) + ":"@ + rest);
    assert(two =~= material_head(q, w) + ":"@ + other_rest);
    lemma_same_version_rest(p, v, rest, q, w, other_rest);
    lemma_same_hashed("storyboard:"@, x, y, after, input@, other_input@);
    assert(content_hash_of(encode_utf8(one)) == content_hash_of(encode_utf8(one)));
    assert(content_hash_of(encode_utf8(two)) == content_hash_of(encode_utf8(two)));
}

/// An illustration is remembered by its project, the number of its version, its scene, the
/// provider and model that make it, and its prompt.
pub proof fn law_image_key_depends_on(
    p: Project,
    v: ProjectVersion,
    a: SceneRecord,
    prompt: &str,
    q: Project,
    w: ProjectVersion,
    b: SceneRecord,
    other_prompt: &str,
    r: String,
    s: String,
)
    requires
        call_ensures(image_key, (&p, &v, &a, prompt), r),
        call_ensures(image_key, (&q, &w, &b, other_prompt), s),
    ensures
        exists|one: Seq<char>, two: Seq<char>|
            #![trigger content_hash_of(encode_utf8(one)), content_hash_of(encode_utf8(two))]
            {
                &&& r@ == "image:"@ + content_hash_of(encode_utf8(one))
                &&& s@ == "image:"@ + content_hash_of(encode_utf8(two))
                &&& one == two <==> {
                    &&& p.id == q.id
                    &&& v.version == w.version
                    &&& a.id == b.id
                    &&& p.image_provider@ + ":"@ + p.image_model@ == q.image_provider@ + ":"@
                        + q.image_model@
                    &&& content_hash_of(encode_utf8(prompt@)) == content_hash_of(
                        encode_utf8(other_prompt@),
                    )
                }
            },
{
    reveal_strlit(":");
    reveal_strlit("image");
    reveal_strlit("image:");
    assert("image:"@ =~= "image"@ + ":"@);
    reveal_strlit(":scene:");
    reveal_strlit("scene:");
    assert(":scene:"@ =~= ":"@ + "scene:"@);
    let one = image_material(p, v, a, prompt@);
    let two = image_material(q, w, b, other_prompt@);
    let x = p.image_provider@ + ":"@ + p.image_model@;
    let y = q.image_provider@ + ":"@ + q.image_model@;
    let after = ":"@ + "image-v1"@;
    let rest = x + after + ":"@ + content_hash_of(encode_utf8(prompt@));
    let other_rest = y + after + ":"@ + content_hash_of(encode_utf8(other_prompt@));
    assert(one =~= material_head(p, v) + ":"@ + scene_rest(a, ":image:"@, rest));
    assert(two =~= material_head(q, w) + ":"@ + scene_rest(b, ":image:"@, other_rest));
    lemma_same_version_rest(
        p,
        v,
        scene_rest(a, ":image:"@, rest),
        q,
        w,
        scene_rest(b, ":image:"@, other_rest),
    );
    lemma_same_scene_rest(a, b, ":image:"@, rest, other_rest);
    lemma_same_hashed(Seq::empty(), x, y, after, encode_utf8(prompt@), encode_utf8(other_prompt@));
    assert(Seq::<char>::empty() + x + after =~= x + after);
    assert(Seq::<char>::empty() + y + after =~= y + after);
    assert(content_hash_of(encode_utf8(one)) == content_hash_of(encode_utf8(one)));
    assert(content_hash_of(encode_utf8(two)) == content_hash_of(encode_utf8(two)));
}

/// A narration is remembered by its project, the number of its version, its scene, the provider,
/// the model and the voice that speak it, and its text.
pub proof fn law_speech_key_depends_on(
    p: Project,
    v: ProjectVersion,
    a: SceneRecord,
    q: Project,
    w: ProjectVersion,
    b: SceneRecord,
    r: String,
    s: String,
)
    requires
        call_ensures(speech_key, (&p, &v, &a), r),
        call_ensures(speech_key, (&q, &w, &b), s),
    ensures
        exists|one: Seq<char>, two: Seq<char>|
            #![trigger content_hash_of(encode_utf8(one)), content_hash_of(encode_utf8(two))]
            {
                &&& r@ == "speech:"@ + content_hash_of(encode_utf8(one))
                &&& s@ == "speech:"@ + content_hash_of(encode_utf8(two))
                &&& one == two <==> {
                    &&& p.id == q.id
                    &&& v.version == w.version
                    &&& a.id == b.id
                    &&& p.speech_provider@ + ":"@ + p.speech_model@ + ":"@ + p.voice@
                        == q.speech_provider@ + ":"@ + q.speech_model@ + ":"@ + q.voice@
                    &&& content_hash_of(encode_utf8(a.narration_text@)) == content_hash_of(
                        encode_utf8(b.narration_text@),
                    )
                }
            },
{
    reveal_strlit(":");
    reveal_strlit("speech");
    reveal_strlit("speech:");
    assert("speech:"@ =~= "speech"@ + ":"@);
    let one = speech_material(p, v, a);
    let two = speech_material(q, w, b);
    let x = p.speech_provider@ + ":"@ + p.speech_model@ + ":"@ + p.voice@;
    let y = q.speech_provider@ + ":"@ + q.speech_model@ + ":"@ + q.voice@;
    let after = ":"@ + "speech-v1"@;
    let rest = x + after + ":"@ + content_hash_of(encode_utf8(a.narration_text@));
    let other_rest = y + after + ":"@ + content_hash_of(encode_utf8(b.narration_text@));
    lemma_speech_material(p, v, a);
    lemma_speech_material(q, w, b);
    lemma_same_version_rest(
        p,
        v,
        scene_rest(a, ":speech:"@, rest),
        q,
        w,
        scene_rest(b, ":speech:"@, other_rest),
    );
    lemma_same_scene_rest(a, b, ":speech:"@, rest, other_rest);
    lemma_same_hashed(Seq::empty(), x, y, after, encode_utf8(a.narration_text@), encode_utf8(b.narration_text@));
    assert(Seq::<char>::empty() + x + after =~= x + after);
    assert(Seq::<char>::empty() + y + after =~= y + after);
    assert(content_hash_of(encode_utf8(one)) == content_hash_of(encode_utf8(one)));
    assert(content_hash_of(encode_utf8(two)) == content_hash_of(encode_utf8(two)));
}

/// Captions are remembered by their project, the number of its version, their scene, the provider
/// and model that align them, the audio and its text. The checksum of the audio holds no colon.
pub proof fn law_captions_key_depends_on(
    p: Project,
    v: ProjectVersion,
    a: SceneRecord,
    checksum: &str,
    q: Project,
    w: ProjectVersion,
    b: SceneRecord,
    other_checksum: &str,
    r: String,
    s: String,
)
    requires
        call_ensures(captions_key, (&p, &v, &a, checksum), r),
        call_ensures(captions_key, (&q, &w, &b, other_checksum), s),
        forall|i: int| 0 <= i < checksum@.len() ==> #[trigger] checksum@[i] != ':',
        forall|i: int| 0 <= i < other_checksum@.len() ==> #[trigger] other_checksum@[i] != ':',
    ensures
        exists|one: Seq<char>, two: Seq<char>|
            #![trigger content_hash_of(encode_utf8(one)), content_hash_of(encode_utf8(two))]
            {
                &&& r@ == "transcription:"@ + content_hash_of(encode_utf8(one))
                &&& s@ == "transcription:"@ + content_hash_of(encode_utf8(two))
                &&& one == two <==> {
                    &&& p.id == q.id
                    &&& v.version == w.version
                    &&& a.id == b.id
                    &&& p.transcription_provider@ + ":"@ + p.transcription_model@
                        == q.transcription_provider@ + ":"@ + q.transcription_model@
                    &&& checksum@ == other_checksum@
                    &&& content_hash_of(encode_utf8(a.narration_text@)) == content_hash_of(
                        encode_utf8(b.narration_text@),
                    )
                }
            },
{
    reveal_strlit(":");
    reveal_strlit("transcription");
    reveal_strlit("transcription:");
    assert("transcription:"@ =~= "transcription"@ + ":"@);
    let one = captions_material(p, v, a, checksum@);
    let two = captions_material(q, w, b, other_checksum@);
    let x = p.transcription_provider@ + ":"@ + p.transcription_model@;
    let y = q.transcription_provider@ + ":"@ + q.transcription_model@;
    let after = ":"@ + "transcription-v1"@;
    let text = encode_utf8(a.narration_text@);
    let other_text = encode_utf8(b.narration_text@);
    let rest = x + after + ":"@ + checksum@ + ":"@ + content_hash_of(text);
    let other_rest = y + after + ":"@ + other_checksum@ + ":"@ + content_hash_of(other_text);
    let scene = scene_rest(a, ":captions:"@, rest);
    let other_scene = scene_rest(b, ":captions:"@, other_rest);
    lemma_captions_material(p, v, a, checksum@);
    lemma_captions_material(q, w, b, other_checksum@);
    lemma_same_version_rest(p, v, scene, q, w, other_scene);
    lemma_same_scene_rest(a, b, ":captions:"@, rest, other_rest);
    lemma_same_captions_rest(x, y, after, checksum@, other_checksum@, text, other_text);
    assert(content_hash_of(encode_utf8(one)) == content_hash_of(encode_utf8(one)));
    assert(content_hash_of(encode_utf8(two)) == content_hash_of(encode_utf8(two)));
}

/// A video is remembered by its project, the number of its version and the hash of what is
/// rendered.
pub proof fn law_render_key_depends_on(
    p: Project,
    v: ProjectVersion,
    hash: &str,
    q: Project,
    w: ProjectVersion,
    other_hash: &str,
    r: String,
    s: String,
)
    requires
        call_ensures(render_task_key, (&p, &v, hash), r),
        call_ensures(render_task_key, (&q, &w, other_hash), s),
    ensures
        exists|one: Seq<char>, two: Seq<char>|
            #![trigger content_hash_of(encode_utf8(one)), content_hash_of(encode_utf8(two))]
            {
                &&& r@ == "render:"@ + content_hash_of(encode_utf8(one))
                &&& s@ == "render:"@ + content_hash_of(encode_utf8(two))
                &&& one == two <==> {
                    &&& p.id == q.id
                    &&& v.version == w.version
                    &&& hash@ == other_hash@
                }
            },
{
    reveal_strlit(":");
    reveal_strlit("render");
    reveal_strlit("render:");
    assert("render:"@ =~= "render"@ + ":"@);
    reveal_strlit(":render:");
    let one = render_material(p, v, hash@);
    let two = render_material(q, w, other_hash@);
    let before = "render:"@ + "render-v1"@ + ":"@;
    let rest = before + hash@ + Seq::<char>::empty();
    let other_rest = before + other_hash@ + Seq::<char>::empty();
    assert(":render:"@ =~= ":"@ + "render:"@);
    assert(one =~= material_head(p, v) + ":"@ + rest);
    assert(two =~= material_head(q, w) + ":"@ + other_rest);
    lemma_same_version_rest(p, v, rest, q, w, other_rest);
    lemma_same_frame(before, hash@, other_hash@, Seq::empty());
    assert(content_hash_of(encode_utf8(one)) == content_hash_of(encode_utf8(one)));
    assert(content_hash_of(encode_utf8(two)) == content_hash_of(encode_utf8(two)));
}

/// The prompt of an illustration starts with what the scene asks for, and states the art direction
/// of the video, each colour of its palette, each of its rules and what to avoid; it ends by
/// keeping any text out of the image.
pub proof fn law_illustration_prompt_states_the_style(
    scene: SceneRecord,
    style: StyleBible,
    r: String,
)
    requires
        call_ensures(image_prompt, (&scene, &style), r),
    ensures
        scene.visual_prompt@.is_prefix_of(r@),
        says(r@, "\n统一艺术方向："@ + style.art_direction@ + "\n"@),
        says(r@, "\n禁止内容："@ + style.negative_prompt@ + "\n"@),
        forall|i: int|
            0 <= i < style.color_palette@.len() ==> says(r@, (#[trigger] style.color_palette@[i])@),
        forall|i: int|
            0 <= i < style.image_rules@.len() ==> says(r@, (#[trigger] style.image_rules@[i])@),
        "\n不要生成任何文字、水印或标志。"@.is_suffix_of(r@),
        r@.len() == scene.visual_prompt@.len() + style.art_direction@.len() + joined(
            texts(style.color_palette@),
            ", "@,
        ).len() + joined(texts(style.image_rules@), "；"@).len() + style.negative_prompt@.len() + 40,
{
    reveal_strlit("\n统一艺术方向：");
    reveal_strlit("\n色板：");
    reveal_strlit("\n画面规则：");
    reveal_strlit("\n禁止内容：");
    reveal_strlit("\n不要生成任何文字、水印或标志。");
    reveal_strlit("\n");
    let v = scene.visual_prompt@;
    let art = style.art_direction@;
    let palette = joined(texts(style.color_palette@), ", "@);
    let rules = joined(texts(style.image_rules@), "；"@);
    let avoid = style.negative_prompt@;
    let last = "\n不要生成任何文字、水印或标志。"@;
    let text = r@;
    let label = "\n统一艺术方向："@;
    let colours = "\n色板："@;
    let guides = "\n画面规则："@;
    let banned = "\n禁止内容："@;
    assert(text =~= v + (label + art + colours + palette + guides + rules + banned + avoid + last));
    let piece = label + art + "\n"@;
    let after = colours.skip(1) + palette + guides + rules + banned + avoid + last;
    assert(colours =~= "\n"@ + colours.skip(1));
    assert(text =~= v + piece + after);
    lemma_says(text, v, piece, after);
    let before = v + label + art + colours;
    let behind = guides + rules + banned + avoid + last;
    assert(text =~= before + palette + behind);
    lemma_says(text, before, palette, behind);
    let before_rules = before + palette + guides;
    assert(text =~= before_rules + rules + (banned + avoid + last));
    lemma_says(text, before_rules, rules, banned + avoid + last);
    let ban = banned + avoid + "\n"@;
    assert(last =~= "\n"@ + last.skip(1));
    assert(text =~= (before_rules + rules) + ban + last.skip(1));
    lemma_says(text, before_rules + rules, ban, last.skip(1));
    assert forall|i: int| 0 <= i < style.color_palette@.len() implies says(
        text,
        (#[trigger] style.color_palette@[i])@,
    ) by {
        lemma_joined_says(texts(style.color_palette@), ", "@, i);
        lemma_says_within(text, palette, style.color_palette@[i]@);
    }
    assert forall|i: int| 0 <= i < style.image_rules@.len() implies says(
        text,
        (#[trigger] style.image_rules@[i])@,
    ) by {
        lemma_joined_says(texts(style.image_rules@), "；"@, i);
        lemma_says_within(text, rules, style.image_rules@[i]@);
    }
    assert(text.subrange(text.len() - last.len(), text.len() as int) =~= last);
}

/// The files of a scene are stored in a place of its own: below its project and its scene, under
/// the name of the file; two files share a key only where all three are the same.
pub proof fn law_file_keys_of_scenes(
    project_id: Id,
    scene_id: Id,
    name: &str,
    other_project: Id,
    other_scene: Id,
    other_name: &str,
    r: String,
    s: String,
)
    requires
        call_ensures(scene_file_key, (project_id, scene_id, name), r),
        call_ensures(scene_file_key, (other_project, other_scene, other_name), s),
    ensures
        r@ == "projects/"@ + hyphenated(project_id.value) + "/scenes/"@ + hyphenated(scene_id.value)
            + "/"@ + name@,
        r@ == s@ <==> project_id == other_project && scene_id == other_scene && name@
            == other_name@,
{
    reveal_strlit("projects/");
    reveal_strlit("/scenes/");
    reveal_strlit("/");
    law_hyphenated_shape(project_id.value);
    law_hyphenated_shape(scene_id.value);
    law_hyphenated_shape(other_project.value);
    law_hyphenated_shape(other_scene.value);
    if r@ == s@ {
        assert(hyphenated(project_id.value) =~= r@.subrange(9, 45));
        assert(hyphenated(other_project.value) =~= s@.subrange(9, 45));
        assert(hyphenated(scene_id.value) =~= r@.subrange(53, 89));
        assert(hyphenated(other_scene.value) =~= s@.subrange(53, 89));
        assert(name@ =~= r@.skip(90));
        assert(other_name@ =~= s@.skip(90));
        law_hyphenated_injective(project_id.value, other_project.value);
        law_hyphenated_injective(scene_id.value, other_scene.value);
    }
}

/// A video is stored below its project under the hash of what was rendered, as an MP4 file; two
/// share a key only where both are the same.
pub proof fn law_file_keys_of_videos(
    project_id: Id,
    hash: &str,
    other_project: Id,
    other_hash: &str,
    r: String,
    s: String,
)
    requires
        call_ensures(render_output_key, (project_id, hash), r),
        call_ensures(render_output_key, (other_project, other_hash), s),
    ensures
        r@ == "projects/"@ + hyphenated(project_id.value) + "/renders/"@ + hash@ + ".mp4"@,
        r@ == s@ <==> project_id == other_project && hash@ == other_hash@,
{
    reveal_strlit("projects/");
    reveal_strlit("/renders/");
    reveal_strlit(".mp4");
    law_hyphenated_shape(project_id.value);
    law_hyphenated_shape(other_project.value);
    if r@ == s@ {
        assert(hyphenated(project_id.value) =~= r@.subrange(9, 45));
        assert(hyphenated(other_project.value) =~= s@.subrange(9, 45));
        assert(hash@ =~= r@.subrange(54, r@.len() - 4));
        assert(other_hash@ =~= s@.subrange(54, s@.len() - 4));
        law_hyphenated_injective(project_id.value, other_project.value);
    }
}

/// The key of a task is its stage and the hash of its material, with a colon between them.
pub proof fn law_task_key_is_stage_and_hash(
    stage: &str,
    material: &str,
    bytes: &[u8],
    hash: String,
    r: String,
)
    requires
        call_ensures(stable_task_key, (stage, material), r),
        bytes@ == encode_utf8(material@),
        call_ensures(content_hash, (bytes,), hash),
    ensures
        r@ == stage@ + ":"@ + hash@,
        r@.len() == stage@.len() + 65,
{
}

} // verus!
