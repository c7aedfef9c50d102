use tktkgo_app::config::{trim_url, Environment};
use tktkgo_app::Settings;

fn unset() -> Environment {
    Environment {
        database_url: None,
        api_addr: None,
        workflow_addr: None,
        restate_ingress_url: None,
        renderer_url: None,
        public_asset_base_url: None,
        asset_root: None,
        web_root: None,
        log_root: None,
        model_gateway_url: None,
    }
}

fn minimal() -> Environment {
    Environment { database_url: Some("postgres://db".to_owned()), ..unset() }
}

#[test]
fn the_database_is_required() {
    for url in [None, Some(String::new()), Some("  ".to_owned())] {
        let error = Settings::from_env(Environment { database_url: url, ..unset() }).unwrap_err();
        assert_eq!(error.text(), "配置错误: 缺少必填环境变量 TKTKGO_DATABASE_URL");
    }
}

#[test]
fn the_rest_has_defaults() {
    let s = Settings::from_env(minimal()).unwrap();
    assert_eq!(s.database_url, "postgres://db");
    assert_eq!(s.api_addr, "0.0.0.0:8000");
    assert_eq!(s.workflow_addr, "0.0.0.0:9080");
    assert_eq!(s.restate_ingress_url, "http://localhost:8080");
    assert_eq!(s.renderer_url, "http://localhost:8090");
    assert_eq!(s.public_asset_base_url, "http://localhost:8000/assets");
    assert_eq!(s.asset_root, "./storage");
    assert_eq!(s.web_root, "./web/out");
    assert_eq!(s.log_root, "./logs");
    assert_eq!(s.model_gateway_url, "http://127.0.0.1:8110");
}

#[test]
fn urls_lose_their_trailing_slashes() {
    let s = Settings::from_env(Environment {
        renderer_url: Some("http://r//".to_owned()),
        asset_root: Some("/data/".to_owned()),
        ..minimal()
    })
    .unwrap();
    assert_eq!(s.renderer_url, "http://r");
    assert_eq!(s.asset_root, "/data/");
    assert_eq!(trim_url(trim_url("http://a/".to_owned())), "http://a");
}

#[test]
fn addresses_have_to_parse() {
    let s = || Settings::from_env(minimal()).unwrap();
    assert!(s().with_addresses(Ok(()), Ok(())).is_ok());
    assert_eq!(
        s().with_addresses(Err("bad".to_owned()), Err("worse".to_owned())).unwrap_err().text(),
        "配置错误: TKTKGO_API_ADDR 不是合法地址: bad"
    );
    assert_eq!(
        s().with_addresses(Ok(()), Err("worse".to_owned())).unwrap_err().text(),
        "配置错误: TKTKGO_WORKFLOW_ADDR 不是合法地址: worse"
    );
}
