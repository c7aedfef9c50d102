use tktkgo_app::hashing::content_hash;
use tktkgo_app::media::{duration_unreadable, probe_arguments, probe_not_run, probe_output};
use tktkgo_app::render::RenderClient;
use tktkgo_app::storage::LocalAssetStore;

fn store(root: &str) -> LocalAssetStore {
    LocalAssetStore::new(root.to_owned(), "http://a/assets".to_owned())
}

#[test]
fn keys_stay_below_the_root() {
    assert_eq!(store("/data").safe_path("projects/x/a.png").unwrap(), "/data/projects/x/a.png");
    assert_eq!(store("/data/").safe_path("a").unwrap(), "/data/a");
    assert_eq!(store("").safe_path("a/b").unwrap(), "a/b");
}

#[test]
fn paths_are_those_of_std() {
    for root in ["/data", "/data/", "", "./storage"] {
        for key in ["a", "a/b.png", "", "a..b/c", "..."] {
            let expected = std::path::Path::new(root).join(key);
            assert_eq!(store(root).safe_path(key).unwrap(), expected.to_str().unwrap());
        }
    }
}

#[test]
fn keys_that_lead_out_are_refused() {
    for key in ["/etc/passwd", "..", "../a", "a/../b", "a/..", "/", "a//../b", "./.."] {
        assert_eq!(
            store("/data").safe_path(key).unwrap_err().text(),
            format!("参数错误: 非法素材存储键: {key}")
        );
        assert!(store("/data").put(key, b"x").is_err());
    }
}

#[test]
fn keys_are_judged_as_std_judges_components() {
    for key in ["a/b", "a/..b", "..a/b", "a/../b", "..", "...", "a/...", "./a", "a/..//b", "/a", ""] {
        let path = std::path::Path::new(key);
        let refused = path.is_absolute()
            || path.components().any(|part| {
                matches!(
                    part,
                    std::path::Component::ParentDir
                        | std::path::Component::RootDir
                        | std::path::Component::Prefix(_)
                )
            });
        assert_eq!(store("/data").safe_path(key).is_err(), refused, "{key:?}");
    }
}

#[test]
fn what_is_stored_is_described() {
    let write = store("/data").put("p/a.txt", b"abc").unwrap();
    assert_eq!(write.path, "/data/p/a.txt");
    assert_eq!(write.object.key, "p/a.txt");
    assert_eq!(write.object.public_url, "http://a/assets/p/a.txt");
    assert_eq!(write.object.byte_size, 3);
    assert_eq!(write.object.checksum, content_hash(b"abc"));
}

#[test]
fn ffprobe_is_asked_for_the_duration() {
    assert_eq!(
        probe_arguments(),
        vec!["-v", "error", "-show_entries", "format=duration", "-of", "json"]
    );
    assert_eq!(probe_output(true, b"{}".to_vec(), b"").unwrap(), b"{}".to_vec());
    assert_eq!(
        probe_output(false, Vec::new(), b"no \xff").unwrap_err().text(),
        "外部服务 ffprobe 调用失败: no \u{fffd}"
    );
    assert_eq!(
        probe_not_run("missing").text(),
        "外部服务 ffprobe 调用失败: 无法执行 ffprobe，请手动安装 FFmpeg: missing"
    );
    assert_eq!(
        duration_unreadable("nan").text(),
        "外部服务 ffprobe 调用失败: 无法解析媒体时长: nan"
    );
}

#[test]
fn the_render_service_is_called_and_checked() {
    let client = RenderClient::new("http://r".to_owned());
    assert_eq!(client.render(), "http://r/renders");
    assert_eq!(RenderClient::checked_text(201, "201 Created", "{}".to_owned()).unwrap(), "{}");
    assert_eq!(
        RenderClient::checked_text(500, "500 Internal", "boom".to_owned()).unwrap_err().text(),
        "外部服务 remotion 调用失败: HTTP 500 Internal: boom"
    );
    assert_eq!(
        RenderClient::unreachable_service("refused".to_owned()).text(),
        "外部服务 remotion 调用失败: refused"
    );
}
