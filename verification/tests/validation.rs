use tktkgo_app::domain::{
    CaptionCue, SceneDraft, ScriptSection, ScriptSpec, StoryboardSpec, StyleBible, TransitionKind,
    VisualType,
};
use tktkgo_app::pipeline::validation::{
    compact_text, validate_captions, validate_script, validate_storyboard,
};
use tktkgo_app::AppResult;

fn section(narration: &str) -> ScriptSection {
    ScriptSection {
        heading: "h".to_owned(),
        purpose: "p".to_owned(),
        narration: narration.to_owned(),
    }
}

fn script() -> ScriptSpec {
    ScriptSpec {
        title: "标题".to_owned(),
        audience: String::new(),
        tone: String::new(),
        visual_style: "水彩".to_owned(),
        summary: "摘要".to_owned(),
        sections: vec![section("你好，"), section(" 世界。")],
        full_narration: "你好， 世界。\n".to_owned(),
    }
}

fn draft(sequence: i32, narration: &str) -> SceneDraft {
    SceneDraft {
        sequence,
        narration: narration.to_owned(),
        visual_type: VisualType::Illustration,
        visual_prompt: "山".to_owned(),
        on_screen_text: None,
        transition: TransitionKind::Fade,
    }
}

fn storyboard() -> StoryboardSpec {
    StoryboardSpec {
        style_bible: StyleBible {
            art_direction: "水彩".to_owned(),
            color_palette: vec!["蓝".to_owned()],
            typography: String::new(),
            image_rules: vec!["留白".to_owned()],
            negative_prompt: "文字".to_owned(),
        },
        scenes: vec![draft(1, "你好，世"), draft(2, "界。")],
    }
}

fn cue(text: &str, start_ms: i64, end_ms: i64) -> CaptionCue {
    CaptionCue { text: text.to_owned(), start_ms, end_ms }
}

fn message(result: AppResult<()>) -> String {
    match result {
        Ok(()) => String::new(),
        Err(error) => error.text(),
    }
}

#[test]
fn compact_text_has_no_white_space() {
    assert_eq!(compact_text("a b\n　c"), "abc");
}

#[test]
fn a_script_passes_whatever_its_white_space() {
    assert_eq!(message(validate_script(&script())), "");
}

#[test]
fn the_fields_of_a_script_have_to_be_filled() {
    let blanks: [fn(&mut ScriptSpec); 5] = [
        |s| s.title = " ".to_owned(),
        |s| s.summary = String::new(),
        |s| s.visual_style = "\t".to_owned(),
        |s| s.full_narration = "　".to_owned(),
        |s| s.sections = Vec::new(),
    ];
    for blank in blanks {
        let mut s = script();
        blank(&mut s);
        assert_eq!(message(validate_script(&s)), "参数错误: 文稿关键字段不能为空");
    }
}

#[test]
fn sections_have_to_tell_the_narration() {
    let mut s = script();
    s.sections.pop();
    assert_eq!(
        message(validate_script(&s)),
        "参数错误: 文稿 sections 的口播内容与 full_narration 不一致"
    );
}

#[test]
fn a_storyboard_tells_its_script() {
    assert_eq!(message(validate_storyboard(&storyboard(), &script())), "");
    let mut s = storyboard();
    s.scenes[1].narration = "界！".to_owned();
    assert_eq!(
        message(validate_storyboard(&s, &script())),
        "参数错误: 分镜口播合并后与审核文稿不一致"
    );
}

#[test]
fn the_style_of_a_storyboard_has_to_be_filled() {
    let blanks: [fn(&mut StyleBible); 4] = [
        |b| b.art_direction = String::new(),
        |b| b.color_palette = Vec::new(),
        |b| b.image_rules = Vec::new(),
        |b| b.negative_prompt = " ".to_owned(),
    ];
    for blank in blanks {
        let mut s = storyboard();
        blank(&mut s.style_bible);
        assert_eq!(
            message(validate_storyboard(&s, &script())),
            "参数错误: 分镜视觉规范不能为空"
        );
    }
}

#[test]
fn a_storyboard_has_one_to_three_hundred_scenes() {
    let mut s = storyboard();
    s.scenes = Vec::new();
    assert_eq!(message(validate_storyboard(&s, &script())), "参数错误: 分镜不能为空");
    s.scenes = (1..=301).map(|n| draft(n, "字")).collect();
    assert_eq!(
        message(validate_storyboard(&s, &script())),
        "参数错误: 分镜不能超过 300 个场景"
    );
    s.scenes.pop();
    let mut long = script();
    long.full_narration = "字".repeat(300);
    assert_eq!(message(validate_storyboard(&s, &long)), "");
}

#[test]
fn scenes_are_numbered_and_filled() {
    let mut s = storyboard();
    s.scenes[1].sequence = 3;
    assert_eq!(
        message(validate_storyboard(&s, &script())),
        "参数错误: 场景序号必须从 1 连续递增，错误位置 2"
    );
    let mut s = storyboard();
    s.scenes[0].narration = " ".to_owned();
    assert_eq!(message(validate_storyboard(&s, &script())), "参数错误: 场景 1 缺少口播");
    let mut s = storyboard();
    s.scenes[1].visual_prompt = String::new();
    assert_eq!(message(validate_storyboard(&s, &script())), "参数错误: 场景 2 缺少画面提示词");
}

#[test]
fn captions_follow_one_another_in_time() {
    let cues = vec![cue("你", 0, 500), cue("好", 500, 1_900), cue("。", 1_950, 3_000)];
    assert_eq!(message(validate_captions(&cues, 2_000)), "");
    assert_eq!(message(validate_captions(&Vec::new(), 0)), "");
}

#[test]
fn captions_out_of_time_are_refused() {
    for (cues, text) in [
        (vec![cue(" ", 0, 5)], "错误位置 1: 0-5ms"),
        (vec![cue("a", -1, 5)], "错误位置 1: -1-5ms"),
        (vec![cue("a", 5, 5)], "错误位置 1: 5-5ms"),
        (vec![cue("a", 0, 10), cue("b", 9, 20)], "错误位置 2: 9-20ms"),
        (vec![cue("a", 0, 1_101)], "错误位置 1: 0-1101ms"),
    ] {
        assert_eq!(
            message(validate_captions(&cues, 100)),
            format!("参数错误: 字幕时间戳无效，{text}")
        );
    }
    assert_eq!(message(validate_captions(&vec![cue("a", 0, 5)], i64::MAX)), "");
}
