use serde_json::Value;
use tktkgo_app::ids::Id;
use tktkgo_app::logging::{
    compose_event, directory_not_created, event_line, file_not_opened, record, service_log_name,
    subscriber_not_installed, task_log_name, timestamp, EventMeta, SpanFields,
};

const SEVEN: &str = "00000000-0000-0000-0000-000000000007";

fn meta() -> EventMeta {
    EventMeta {
        timestamp: "2026-01-01T00:00:00.000000Z".to_owned(),
        level: "INFO".to_owned(),
        service: "api".to_owned(),
        target: "tktkgo".to_owned(),
    }
}

fn fields(pairs: &[(&str, Value)]) -> serde_json::Map<String, Value> {
    pairs.iter().map(|(name, value)| ((*name).to_owned(), value.clone())).collect()
}

fn span(name: &str, pairs: &[(&str, Value)]) -> SpanFields {
    SpanFields { name: name.to_owned(), fields: Some(fields(pairs)) }
}

#[test]
fn an_event_without_spans_holds_its_fields() {
    let event = compose_event(&meta(), &Vec::new(), fields(&[("message", Value::from("你好")), ("n", Value::from(5))]));
    assert_eq!(event.workflow_id, None);
    assert_eq!(
        event.output,
        fields(&[
            ("timestamp", Value::from("2026-01-01T00:00:00.000000Z")),
            ("level", Value::from("INFO")),
            ("service", Value::from("api")),
            ("target", Value::from("tktkgo")),
            ("message", Value::from("你好")),
            ("n", Value::from(5)),
        ])
    );
}

#[test]
fn inner_fields_count_before_outer_ones() {
    let spans = vec![
        span("outer", &[("stage", Value::from("a")), ("project_id", Value::from("p"))]),
        SpanFields { name: "bare".to_owned(), fields: None },
        span("inner", &[("stage", Value::from("b")), ("level", Value::from("mine"))]),
    ];
    let event = compose_event(&meta(), &spans, fields(&[("message", Value::from("m"))]));
    assert_eq!(event.output["stage"], Value::from("b"));
    assert_eq!(event.output["project_id"], Value::from("p"));
    assert_eq!(event.output["level"], Value::from("mine"));
    assert_eq!(
        event.output["spans"],
        Value::Array(vec![
            Value::Object(fields(&[
                ("name", Value::from("outer")),
                ("stage", Value::from("a")),
                ("project_id", Value::from("p")),
            ])),
            Value::Object(fields(&[("name", Value::from("bare"))])),
            Value::Object(fields(&[
                ("name", Value::from("inner")),
                ("stage", Value::from("b")),
                ("level", Value::from("mine")),
            ])),
        ])
    );
    let event = compose_event(&meta(), &spans, fields(&[("stage", Value::from("own"))]));
    assert_eq!(event.output["stage"], Value::from("own"));
}

#[test]
fn only_a_uuid_names_a_workflow() {
    let named = |value: Value| compose_event(&meta(), &Vec::new(), fields(&[("workflow_id", value)])).workflow_id;
    assert_eq!(named(Value::from(SEVEN)), Some(Id { value: 7 }));
    assert_eq!(named(Value::from("../../etc/passwd")), None);
    assert_eq!(named(Value::from(7)), None);
    let spans = vec![span("s", &[("workflow_id", Value::from(SEVEN))])];
    assert_eq!(compose_event(&meta(), &spans, serde_json::Map::new()).workflow_id, Some(Id { value: 7 }));
    let hidden = fields(&[("workflow_id", Value::from(true))]);
    assert_eq!(compose_event(&meta(), &spans, hidden).workflow_id, None);
}

#[test]
fn later_records_replace_earlier_ones() {
    let first = fields(&[("a", Value::from(1)), ("b", Value::from(2))]);
    let second = fields(&[("b", Value::from(3))]);
    assert_eq!(record(Some(first), second.clone()), fields(&[("a", Value::from(1)), ("b", Value::from(3))]));
    assert_eq!(record(None, second.clone()), second);
}

#[test]
fn an_event_is_one_line_of_json() {
    let event = compose_event(&meta(), &Vec::new(), fields(&[("message", Value::from("a\nb"))]));
    let expected = Value::Object(event.output.clone());
    let bytes = event_line(event).unwrap();
    assert_eq!(bytes.iter().filter(|b| **b == b'\n').count(), 1);
    assert_eq!(bytes.last(), Some(&b'\n'));
    assert_eq!(serde_json::from_slice::<Value>(&bytes).unwrap(), expected);
}

#[test]
fn log_files_have_plain_names() {
    assert_eq!(task_log_name(Id { value: 7 }), format!("{SEVEN}.log"));
    assert_eq!(service_log_name("api"), "api.log");
}

#[test]
fn log_errors_are_configuration_errors() {
    assert_eq!(directory_not_created("/l", "denied").text(), "配置错误: 无法创建日志目录 /l: denied");
    assert_eq!(file_not_opened("/l/a.log", "denied").text(), "配置错误: 无法打开日志文件 /l/a.log: denied");
    assert_eq!(subscriber_not_installed("set").text(), "配置错误: 初始化日志订阅器失败: set");
}

#[test]
fn instants_are_logged_with_microseconds() {
    assert_eq!(timestamp(0), Some("1970-01-01T00:00:00.000000Z".to_owned()));
    assert_eq!(timestamp(1_662_921_288_000_123), Some("2022-09-11T18:34:48.000123Z".to_owned()));
    assert_eq!(timestamp(-1), Some("1969-12-31T23:59:59.999999Z".to_owned()));
    assert_eq!(timestamp(i64::MAX), None);
}
