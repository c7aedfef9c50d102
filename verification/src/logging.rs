//! The composition of log events and the files that they go to.
use crate::error::{AppError, ErrorView};
use crate::ids::{
    hyphenated, law_hyphenated_injective, law_hyphenated_shape, uuid_parsed, Id,
};
use vstd::prelude::*;
use vstd::string::*;

verus! {

/// A JSON object of `serde_json`.
#[verifier::external_type_specification]
#[verifier::external_body]
#[verifier::reject_recursive_types(K)]
#[verifier::reject_recursive_types(V)]
pub struct ExJsonObject<K, V>(serde_json::Map<K, V>);

/// A JSON value of `serde_json`.
#[verifier::external_type_specification]
#[verifier::external_body]
pub struct ExJsonValue(serde_json::Value);

/// The fields of a log record.
pub type Fields = serde_json::Map<String, serde_json::Value>;

/// What a JSON object holds under each name: a string as it is, any other value as its JSON
/// text.
pub uninterp spec fn entries(
    object: serde_json::Map<String, serde_json::Value>,
) -> Map<Seq<char>, Result<Seq<char>, Seq<char>>>;

/// The objects in the array that a JSON object holds under a name, each by what it holds.
pub uninterp spec fn objects_at(
    object: serde_json::Map<String, serde_json::Value>,
    name: Seq<char>,
) -> Seq<Map<Seq<char>, Result<Seq<char>, Seq<char>>>>;

/// The bytes of a JSON object.
pub uninterp spec fn encoded(object: serde_json::Map<String, serde_json::Value>) -> Seq<u8>;

/// Calls `serde_json::Map::new`: the object holds nothing.
#[verifier::external_body]
fn no_fields() -> (r: Fields)
    ensures
        entries(r) == nothing(),
{
    serde_json::Map::new()
}

/// Calls `serde_json::Map::insert` with a string: the object holds it under the name, in place
/// of what it held there, and is else as it was.
#[verifier::external_body]
fn put_text(object: &mut Fields, name: &str, text: &str)
    ensures
        entries(*final(object)) == entries(*old(object)).insert(name@, Ok(text@)),
{
    object.insert(name.to_owned(), serde_json::Value::from(text));
}

/// Calls `serde_json::Map::insert` with an array of objects: the object holds it under the
/// name, in place of what it held there, and is else as it was. Of the text of the array
/// nothing is stated; it depends on the order in which each object holds its names.
#[verifier::external_body]
fn put_objects(object: &mut Fields, name: &str, objects: Vec<Fields>)
    ensures
        entries(*final(object)).dom() == entries(*old(object)).dom().insert(name@),
        entries(*final(object)).remove(name@) == entries(*old(object)).remove(name@),
        entries(*final(object))[name@] is Err,
        objects_at(*final(object), name@) == each_entries(objects@),
{
    let values = objects.into_iter().map(serde_json::Value::Object).collect();
    object.insert(name.to_owned(), serde_json::Value::Array(values));
}

/// Calls `Extend::extend` of `serde_json::Map`: what the other object holds is put into the
/// object, in place of what it held under the same names.
#[verifier::external_body]
fn overlay(object: &mut Fields, other: Fields)
    ensures
        entries(*final(object)) == entries(*old(object)).union_prefer_right(entries(other)),
{
    object.extend(other);
}

/// Calls `Clone::clone` of `serde_json::Map`: the copy holds what the object holds.
#[verifier::external_body]
fn copy_of(object: &Fields) -> (r: Fields)
    ensures
        entries(r) == entries(*object),
{
    object.clone()
}

/// Calls `serde_json::Map::get` and takes what it finds as a string: there is one if and only
/// if the object holds a string under the name.
#[verifier::external_body]
fn text_at(object: &Fields, name: &str) -> (r: Option<String>)
    ensures
        (r is Some) == (entries(*object).contains_key(name@) && entries(*object)[name@] is Ok),
        r is Some ==> entries(*object)[name@]->Ok_0 == r->0@,
{
    object.get(name).and_then(serde_json::Value::as_str).map(str::to_owned)
}

/// Calls `serde_json::to_vec` on an object. It fails only where a `Serialize` does or a key is
/// no string, so of an object, whose keys are strings, it always makes bytes. They are a
/// function of the object, and none is a line feed: the form is compact, and control characters
/// in strings are escaped.
#[verifier::external_body]
fn encode(object: Fields) -> (r: Result<Vec<u8>, String>)
    ensures
        r is Ok,
        r->Ok_0@ == encoded(object),
        forall|i: int| 0 <= i < r->Ok_0@.len() ==> #[trigger] r->Ok_0@[i] != 10u8,
{
    serde_json::to_vec(&serde_json::Value::Object(object)).map_err(|error| error.to_string())
}

/// The text of an instant, in microseconds since the Unix epoch, as `chrono` writes it in the
/// form of RFC 3339, where `chrono` can hold the instant.
pub uninterp spec fn rfc3339(micros: i64) -> Option<Seq<char>>;

/// Calls `chrono::DateTime::to_rfc3339_opts`, with microseconds and a `Z`, on the instant that
/// `chrono::DateTime::from_timestamp_micros` makes of the number: the text is a function of the
/// number alone, and there is none where the instant is out of range.
#[verifier::external_body]
fn rfc3339_text(micros: i64) -> (r: Option<String>)
    ensures
        (r is Some) == (rfc3339(micros) is Some),
        r is Some ==> r->0@ == rfc3339(micros)->0,
{
    let instant = chrono::DateTime::from_timestamp_micros(micros)?;
    Some(instant.to_rfc3339_opts(chrono::SecondsFormat::Micros, true))
}

/// What an object without any name holds.
pub open spec fn nothing() -> Map<Seq<char>, Result<Seq<char>, Seq<char>>> {
    Map::empty()
}

/// What each of several objects holds.
pub open spec fn each_entries(objects: Seq<Fields>) -> Seq<
    Map<Seq<char>, Result<Seq<char>, Seq<char>>>,
> {
    objects.map(|i: int, object: Fields| entries(object))
}

/// A span that an event happened in, with the fields that were recorded for it.
pub struct SpanFields {
    pub name: String,
    pub fields: Option<Fields>,
}

/// What an event says of itself, besides its fields.
pub struct EventMeta {
    pub timestamp: String,
    pub level: String,
    pub service: String,
    pub target: String,
}

/// An event ready to be written, and the workflow that it belongs to.
pub struct LogEvent {
    pub workflow_id: Option<Id>,
    pub output: Fields,
}

/// What the fields of a span hold.
pub open spec fn span_entries(span: SpanFields) -> Map<Seq<char>, Result<Seq<char>, Seq<char>>> {
    match span.fields {
        Some(fields) => entries(fields),
        None => nothing(),
    }
}

/// What the first `count` spans, from the outermost on, hand down: where several hold a name,
/// the innermost counts.
pub open spec fn inherited(spans: Seq<SpanFields>, count: int) -> Map<
    Seq<char>,
    Result<Seq<char>, Seq<char>>,
>
    decreases count,
{
    if count <= 0 {
        nothing()
    } else {
        inherited(spans, count - 1).union_prefer_right(span_entries(spans[count - 1]))
    }
}

/// All fields of an event: those of its spans and, in place of them, its own.
pub open spec fn all_fields(spans: Seq<SpanFields>, own: Fields) -> Map<
    Seq<char>,
    Result<Seq<char>, Seq<char>>,
> {
    inherited(spans, spans.len() as int).union_prefer_right(entries(own))
}

/// A span as it is listed: its name and, in place of it, its fields.
pub open spec fn listed(span: SpanFields) -> Map<Seq<char>, Result<Seq<char>, Seq<char>>> {
    nothing().insert("name"@, Ok(span.name@)).union_prefer_right(span_entries(span))
}

/// What an event says of itself.
pub open spec fn meta_entries(meta: EventMeta) -> Map<Seq<char>, Result<Seq<char>, Seq<char>>> {
    nothing().insert("timestamp"@, Ok(meta.timestamp@)).insert("level"@, Ok(meta.level@)).insert(
        "service"@,
        Ok(meta.service@),
    ).insert("target"@, Ok(meta.target@))
}

/// The workflow that fields name: only a text that is a UUID names one.
pub open spec fn named_workflow(
    fields: Map<Seq<char>, Result<Seq<char>, Seq<char>>>,
) -> Option<Id> {
    if fields.contains_key("workflow_id"@) && fields["workflow_id"@] is Ok {
        match uuid_parsed(fields["workflow_id"@]->Ok_0) {
            Ok(value) => Some(Id { value }),
            Err(_) => None,
        }
    } else {
        None
    }
}

/// The text under which an instant, in microseconds since the Unix epoch, is logged.
pub fn timestamp(micros: i64) -> (r: Option<String>)
    ensures
        (r is Some) == (rfc3339(micros) is Some),
        r is Some ==> r->0@ == rfc3339(micros)->0,
{
    rfc3339_text(micros)
}

/// The fields that are recorded for a span from now on.
pub fn record(recorded: Option<Fields>, new: Fields) -> (r: Fields)
    ensures
        match recorded {
            Some(fields) => entries(r) == entries(fields).union_prefer_right(entries(new)),
            None => r == new,
        },
{
    match recorded {
        Some(fields) => {
            let mut all = fields;
            overlay(&mut all, new);
            all
        },
        None => new,
    }
}

/// The event with the given fields of its own, in the given spans from the outermost to the
/// innermost.
pub fn compose_event(meta: &EventMeta, spans: &Vec<SpanFields>, own: Fields) -> (r: LogEvent)
    ensures
        r.workflow_id == named_workflow(all_fields(spans@, own)),
        spans@.len() == 0 ==> entries(r.output) == meta_entries(*meta).union_prefer_right(
            entries(own),
        ),
        spans@.len() > 0 ==> {
            &&& entries(r.output).remove("spans"@) == meta_entries(*meta).union_prefer_right(
                all_fields(spans@, own),
            ).remove("spans"@)
            &&& entries(r.output).contains_key("spans"@) && entries(r.output)["spans"@] is Err
            &&& objects_at(r.output, "spans"@) == spans@.map(|i: int, span: SpanFields| listed(span))
        },
{
    let mut fields = no_fields();
    let mut objects: Vec<Fields> = Vec::new();
    let mut i: usize = 0;
    while i < spans.len()
        invariant
            i <= spans@.len(),
            objects@.len() == i,
            entries(fields) == inherited(spans@, i as int),
            forall|k: int|
                #![trigger objects@[k]]
                0 <= k < i ==> entries(objects@[k]) == listed(spans@[k]),
        decreases spans@.len() - i,
    {
        let span = &spans[i];
        let mut object = no_fields();
        put_text(&mut object, "name", span.name.as_str());
        match &span.fields {
            Some(recorded) => {
                overlay(&mut fields, copy_of(recorded));
                overlay(&mut object, copy_of(recorded));
            },
            None => {
                assert(entries(fields).union_prefer_right(nothing()) =~= entries(fields));
                assert(entries(object).union_prefer_right(nothing()) =~= entries(object));
            },
        }
        objects.push(object);
        i += 1;
    }
    overlay(&mut fields, own);
    let workflow_id = match text_at(&fields, "workflow_id") {
        Some(text) => match Id::parse(text.as_str()) {
            Ok(id) => Some(id),
            Err(_) => None,
        },
        None => None,
    };
    let mut output = no_fields();
    put_text(&mut output, "timestamp", meta.timestamp.as_str());
    put_text(&mut output, "level", meta.level.as_str());
    put_text(&mut output, "service", meta.service.as_str());
    put_text(&mut output, "target", meta.target.as_str());
    overlay(&mut output, fields);
    if objects.len() > 0 {
        assert(each_entries(objects@) =~= spans@.map(|i: int, span: SpanFields| listed(span)));
        put_objects(&mut output, "spans", objects);
    } else {
        assert(all_fields(spans@, own) =~= entries(own));
    }
    LogEvent { workflow_id, output }
}

/// The line that an event is written as: its JSON form and a line feed, which is the only one.
pub fn event_line(event: LogEvent) -> (r: Result<Vec<u8>, String>)
    ensures
        r is Ok,
        r->Ok_0@ == encoded(event.output).push(10u8),
        forall|i: int| 0 <= i < r->Ok_0@.len() - 1 ==> #[trigger] r->Ok_0@[i] != 10u8,
{
    match encode(event.output) {
        Ok(bytes) => {
            let mut line = bytes;
            line.push(10);
            Ok(line)
        },
        Err(reason) => Err(reason),
    }
}

/// The name of the log file of a workflow.
pub open spec fn task_log(workflow_id: Id) -> Seq<char> {
    hyphenated(workflow_id.value) + ".log"@
}

/// The name of the log file of a workflow.
pub fn task_log_name(workflow_id: Id) -> (r: String)
    ensures
        r@ == task_log(workflow_id),
{
    let mut name = workflow_id.text();
    name.append(".log");
    name
}

/// The name of the log file of a service.
pub fn service_log_name(service: &str) -> (r: String)
    ensures
        r@ == service@ + ".log"@,
{
    let mut name = service.to_owned();
    name.append(".log");
    name
}

fn log_failure(what: &str, path: &str, reason: &str) -> (r: AppError)
    ensures
        r@ == ErrorView::Config(what@ + path@ + ": "@ + reason@),
{
    let mut message = what.to_owned();
    message.append(path);
    message.append(": ");
    message.append(reason);
    AppError::Config(message)
}

/// The error for a log directory that cannot be created.
pub fn directory_not_created(path: &str, reason: &str) -> (r: AppError)
    ensures
        r@ == ErrorView::Config("无法创建日志目录 "@ + path@ + ": "@ + reason@),
{
    log_failure("无法创建日志目录 ", path, reason)
}

/// The error for a log file that cannot be opened.
pub fn file_not_opened(path: &str, reason: &str) -> (r: AppError)
    ensures
        r@ == ErrorView::Config("无法打开日志文件 "@ + path@ + ": "@ + reason@),
{
    log_failure("无法打开日志文件 ", path, reason)
}

/// The error for a subscriber that cannot be installed.
pub fn subscriber_not_installed(reason: &str) -> (r: AppError)
    ensures
        r@ == ErrorView::Config("初始化日志订阅器失败: "@ + reason@),
{
    let mut message = "初始化日志订阅器失败: ".to_owned();
    message.append(reason);
    AppError::Config(message)
}

/// A field of an event counts before that of any span, and that of an inner span before that
/// of an outer one.
pub proof fn law_innermost_field_counts(
    spans: Seq<SpanFields>,
    own: Fields,
    name: Seq<char>,
    inner: int,
)
    requires
        0 <= inner < spans.len(),
        forall|k: int|
            #![trigger spans[k]]
            inner < k < spans.len() ==> !span_entries(spans[k]).contains_key(name),
    ensures
        entries(own).contains_key(name) ==> all_fields(spans, own)[name] == entries(own)[name],
        !entries(own).contains_key(name) && span_entries(spans[inner]).contains_key(name)
            ==> all_fields(spans, own).contains_key(name) && all_fields(spans, own)[name]
            == span_entries(spans[inner])[name],
{
    if span_entries(spans[inner]).contains_key(name) {
        lemma_inherited_from(spans, name, inner, spans.len() as int);
    }
}

proof fn lemma_inherited_from(spans: Seq<SpanFields>, name: Seq<char>, inner: int, count: int)
    requires
        0 <= inner < count <= spans.len(),
        span_entries(spans[inner]).contains_key(name),
        forall|k: int|
            #![trigger spans[k]]
            inner < k < count ==> !span_entries(spans[k]).contains_key(name),
    ensures
        inherited(spans, count).contains_key(name),
        inherited(spans, count)[name] == span_entries(spans[inner])[name],
    decreases count,
{
    if inner < count - 1 {
        lemma_inherited_from(spans, name, inner, count - 1);
        assert(!span_entries(spans[count - 1]).contains_key(name));
    }
}

/// The log file of a workflow has a plain name: no field of an event leads out of the directory
/// of the task logs. Workflows share no file.
pub proof fn law_task_log_is_a_plain_name(workflow_id: Id, other: Id)
    ensures
        forall|i: int| 0 <= i < task_log(workflow_id).len() ==> #[trigger] task_log(workflow_id)[i]
            != '/',
        task_log(workflow_id).len() == 40,
        task_log(workflow_id) == task_log(other) ==> workflow_id == other,
{
    reveal_strlit(".log");
    law_hyphenated_shape(workflow_id.value);
    law_hyphenated_shape(other.value);
    let a = hyphenated(workflow_id.value);
    let b = hyphenated(other.value);
    assert(task_log(workflow_id).take(36) =~= a);
    assert(task_log(other).take(36) =~= b);
    if a == b {
        law_hyphenated_injective(workflow_id.value, other.value);
    }
}

/// An event has each of its own fields as it is; each field of a span that neither the event nor a
/// span further in has; and its time, level, service and target where no field has that name. It
/// has no other fields, but for the list of its spans where it happened in any.
pub proof fn law_fields_of_an_event(
    meta: EventMeta,
    spans: Vec<SpanFields>,
    own: Fields,
    r: LogEvent,
    name: Seq<char>,
)
    requires
        call_ensures(compose_event, (&meta, &spans, own), r),
        name != "spans"@,
    ensures
        entries(own).contains_key(name) ==> entries(r.output).contains_key(name) && entries(
            r.output,
        )[name] == entries(own)[name],
        forall|inner: int|
            #![trigger spans@[inner]]
            0 <= inner < spans@.len() && !entries(own).contains_key(name) && spans@[inner].fields
                is Some && entries(spans@[inner].fields->0).contains_key(name) && (forall|k: int|
                #![trigger spans@[k]]
                inner < k < spans@.len() && spans@[k].fields is Some ==> !entries(
                    spans@[k].fields->0,
                ).contains_key(name)) ==> entries(r.output).contains_key(name) && entries(
                r.output,
            )[name] == entries(spans@[inner].fields->0)[name],
        !entries(own).contains_key(name) && (forall|k: int|
            #![trigger spans@[k]]
            0 <= k < spans@.len() && spans@[k].fields is Some ==> !entries(
                spans@[k].fields->0,
            ).contains_key(name)) ==> {
            &&& entries(r.output).contains_key(name) <==> name == "timestamp"@ || name == "level"@
                || name == "service"@ || name == "target"@
            &&& name == "timestamp"@ ==> entries(r.output)[name] == Ok::<Seq<char>, Seq<char>>(
                meta.timestamp@,
            )
            &&& name == "level"@ ==> entries(r.output)[name] == Ok::<Seq<char>, Seq<char>>(
                meta.level@,
            )
            &&& name == "service"@ ==> entries(r.output)[name] == Ok::<Seq<char>, Seq<char>>(
                meta.service@,
            )
            &&& name == "target"@ ==> entries(r.output)[name] == Ok::<Seq<char>, Seq<char>>(
                meta.target@,
            )
        },
{
    let all = all_fields(spans@, own);
    let whole = meta_entries(meta).union_prefer_right(all);
    lemma_composed(meta, spans, own, r, name);
    assert forall|inner: int|
        #![trigger spans@[inner]]
        0 <= inner < spans@.len() && !entries(own).contains_key(name) && spans@[inner].fields
            is Some && entries(spans@[inner].fields->0).contains_key(name) && (forall|k: int|
            #![trigger spans@[k]]
            inner < k < spans@.len() && spans@[k].fields is Some ==> !entries(
                spans@[k].fields->0,
            ).contains_key(name)) implies entries(r.output).contains_key(name) && entries(
        r.output,
    )[name] == entries(spans@[inner].fields->0)[name] by {
        law_innermost_field_counts(spans@, own, name, inner);
    }
    if !entries(own).contains_key(name) && (forall|k: int|
        #![trigger spans@[k]]
        0 <= k < spans@.len() && spans@[k].fields is Some ==> !entries(
            spans@[k].fields->0,
        ).contains_key(name)) {
        lemma_not_inherited(spans@, name, spans@.len() as int);
        reveal_strlit("timestamp");
        reveal_strlit("level");
        reveal_strlit("service");
        reveal_strlit("target");
        assert("timestamp"@.len() == 9 && "level"@.len() == 5 && "service"@.len() == 7
            && "target"@.len() == 6);
    }
}

proof fn lemma_composed(
    meta: EventMeta,
    spans: Vec<SpanFields>,
    own: Fields,
    r: LogEvent,
    name: Seq<char>,
)
    requires
        call_ensures(compose_event, (&meta, &spans, own), r),
        name != "spans"@,
    ensures
        ({
            let whole = meta_entries(meta).union_prefer_right(all_fields(spans@, own));
            &&& entries(r.output).contains_key(name) == whole.contains_key(name)
            &&& whole.contains_key(name) ==> entries(r.output)[name] == whole[name]
        }),
{
    let whole = meta_entries(meta).union_prefer_right(all_fields(spans@, own));
    if spans@.len() > 0 {
        let left = entries(r.output).remove("spans"@);
        let right = whole.remove("spans"@);
        assert(left == right);
        assert(left.contains_key(name) == entries(r.output).contains_key(name));
        assert(right.contains_key(name) == whole.contains_key(name));
        if whole.contains_key(name) {
            assert(left[name] == entries(r.output)[name]);
            assert(right[name] == whole[name]);
        }
    } else {
        assert(all_fields(spans@, own) =~= entries(own));
    }
}

proof fn lemma_not_inherited(spans: Seq<SpanFields>, name: Seq<char>, count: int)
    requires
        0 <= count <= spans.len(),
        forall|k: int|
            #![trigger spans[k]]
            0 <= k < spans.len() && spans[k].fields is Some ==> !entries(
                spans[k].fields->0,
            ).contains_key(name),
    ensures
        !inherited(spans, count).contains_key(name),
    decreases count,
{
    if count > 0 {
        lemma_not_inherited(spans, name, count - 1);
        let span = spans[count - 1];
    }
}

/// An event lists the spans that it happened in, from the outermost on: each with its fields, and
/// with its name where none of them is a name. It lists none where it happened in none.
pub proof fn law_spans_of_an_event(
    meta: EventMeta,
    spans: Vec<SpanFields>,
    own: Fields,
    r: LogEvent,
    i: int,
    name: Seq<char>,
)
    requires
        call_ensures(compose_event, (&meta, &spans, own), r),
    ensures
        spans@.len() == 0 ==> (entries(r.output).contains_key("spans"@) <==> entries(
            own,
        ).contains_key("spans"@)),
        spans@.len() > 0 ==> entries(r.output).contains_key("spans"@) && entries(
            r.output,
        )["spans"@] is Err && objects_at(r.output, "spans"@).len() == spans@.len(),
        0 <= i < spans@.len() ==> ({
            let object = objects_at(r.output, "spans"@)[i];
            let fields = spans@[i].fields;
            &&& fields is Some && entries(fields->0).contains_key(name) ==> object.contains_key(
                name,
            ) && object[name] == entries(fields->0)[name]
            &&& fields is None || !entries(fields->0).contains_key(name) ==> {
                &&& object.contains_key(name) <==> name == "name"@
                &&& name == "name"@ ==> object[name] == Ok::<Seq<char>, Seq<char>>(
                    spans@[i].name@,
                )
            }
        }),
{
    if spans@.len() == 0 {
        reveal_strlit("timestamp");
        reveal_strlit("level");
        reveal_strlit("service");
        reveal_strlit("target");
        reveal_strlit("spans");
        assert("level"@[0] != "spans"@[0]);
        assert("timestamp"@.len() != "spans"@.len() && "service"@.len() != "spans"@.len()
            && "target"@.len() != "spans"@.len());
    }
    if 0 <= i < spans@.len() {
        assert(objects_at(r.output, "spans"@)[i] == listed(spans@[i]));
    }
}

/// An event belongs to the workflow that its fields name by a UUID, its own field before those of
/// its spans, and to none where they name none.
pub proof fn law_workflow_of_an_event(
    meta: EventMeta,
    spans: Vec<SpanFields>,
    own: Fields,
    r: LogEvent,
    text: &str,
    id: Result<Id, String>,
)
    requires
        call_ensures(compose_event, (&meta, &spans, own), r),
        call_ensures(Id::parse, (text,), id),
    ensures
        entries(own).contains_key("workflow_id"@) && entries(own)["workflow_id"@] == Ok::<
            Seq<char>,
            Seq<char>,
        >(text@) ==> {
            &&& id is Ok ==> r.workflow_id == Some(id->Ok_0)
            &&& id is Err ==> r.workflow_id is None
        },
        entries(own).contains_key("workflow_id"@) && entries(own)["workflow_id"@] is Err
            ==> r.workflow_id is None,
        !entries(own).contains_key("workflow_id"@) && (forall|k: int|
            #![trigger spans@[k]]
            0 <= k < spans@.len() && spans@[k].fields is Some ==> !entries(
                spans@[k].fields->0,
            ).contains_key("workflow_id"@)) ==> r.workflow_id is None,
        forall|inner: int|
            #![trigger spans@[inner]]
            0 <= inner < spans@.len() && !entries(own).contains_key("workflow_id"@)
                && spans@[inner].fields is Some && entries(spans@[inner].fields->0).contains_key(
                "workflow_id"@,
            ) && (forall|k: int|
                #![trigger spans@[k]]
                inner < k < spans@.len() && spans@[k].fields is Some ==> !entries(
                    spans@[k].fields->0,
                ).contains_key("workflow_id"@)) ==> {
                let named = entries(spans@[inner].fields->0)["workflow_id"@];
                &&& named is Err ==> r.workflow_id is None
                &&& named == Ok::<Seq<char>, Seq<char>>(text@) && id is Ok ==> r.workflow_id
                    == Some(id->Ok_0)
                &&& named == Ok::<Seq<char>, Seq<char>>(text@) && id is Err ==> r.workflow_id
                    is None
            },
{
    let name = "workflow_id"@;
    assert forall|inner: int|
        #![trigger spans@[inner]]
        0 <= inner < spans@.len() && !entries(own).contains_key(name) && spans@[inner].fields
            is Some && entries(spans@[inner].fields->0).contains_key(name) && (forall|k: int|
            #![trigger spans@[k]]
            inner < k < spans@.len() && spans@[k].fields is Some ==> !entries(
                spans@[k].fields->0,
            ).contains_key(name)) implies {
        let named = entries(spans@[inner].fields->0)[name];
        &&& named is Err ==> r.workflow_id is None
        &&& named == Ok::<Seq<char>, Seq<char>>(text@) && id is Ok ==> r.workflow_id == Some(
            id->Ok_0,
        )
        &&& named == Ok::<Seq<char>, Seq<char>>(text@) && id is Err ==> r.workflow_id is None
    } by {
        law_innermost_field_counts(spans@, own, name, inner);
    }
    if !entries(own).contains_key(name) && (forall|k: int|
        #![trigger spans@[k]]
        0 <= k < spans@.len() && spans@[k].fields is Some ==> !entries(
            spans@[k].fields->0,
        ).contains_key(name)) {
        lemma_not_inherited(spans@, name, spans@.len() as int);
    }
}

/// What is recorded for a span later is put over what was recorded before, and nothing else of that
/// is lost.
pub proof fn law_recorded_fields(
    recorded: Option<Fields>,
    new: Fields,
    r: Fields,
    name: Seq<char>,
)
    requires
        call_ensures(record, (recorded, new), r),
    ensures
        entries(new).contains_key(name) ==> entries(r).contains_key(name) && entries(r)[name]
            == entries(new)[name],
        recorded is Some && !entries(new).contains_key(name) && entries(recorded->0).contains_key(
            name,
        ) ==> entries(r).contains_key(name) && entries(r)[name] == entries(recorded->0)[name],
        entries(r).contains_key(name) ==> entries(new).contains_key(name) || (recorded is Some
            && entries(recorded->0).contains_key(name)),
{
}

/// The lines of events can be told apart: each is the bytes of its event and a line feed, and a
/// line feed stands nowhere else.
pub proof fn law_lines_of_events(event: LogEvent, r: Result<Vec<u8>, String>)
    requires
        call_ensures(event_line, (event,), r),
    ensures
        r is Ok,
        r->Ok_0@.len() > 0 && r->Ok_0@.last() == 10,
        r->Ok_0@.drop_last() == encoded(event.output),
        forall|i: int| 0 <= i < r->Ok_0@.len() - 1 ==> #[trigger] r->Ok_0@[i] != 10,
{
    assert(r->Ok_0@.drop_last() =~= encoded(event.output));
}

/// The log of a workflow is named by its identifier, that of a service by its name; an instant is
/// logged under its text, and what keeps logs from being written is told as an error of the
/// configuration.
pub proof fn law_names_of_logs(
    workflow_id: Id,
    text: String,
    task: String,
    service: &str,
    shared: String,
    micros: i64,
    instant: Option<String>,
    path: &str,
    reason: &str,
    directory: AppError,
    file: AppError,
    subscriber: AppError,
)
    requires
        call_ensures(task_log_name, (workflow_id,), task),
        call_ensures(Id::text, (&workflow_id,), text),
        call_ensures(service_log_name, (service,), shared),
        call_ensures(timestamp, (micros,), instant),
        call_ensures(directory_not_created, (path, reason), directory),
        call_ensures(file_not_opened, (path, reason), file),
        call_ensures(subscriber_not_installed, (reason,), subscriber),
    ensures
        task@ == text@ + ".log"@,
        shared@ == service@ + ".log"@,
        instant is Some <==> rfc3339(micros) is Some,
        instant is Some ==> instant->0@ == rfc3339(micros)->0,
        directory@ == ErrorView::Config("无法创建日志目录 "@ + path@ + ": "@ + reason@),
        file@ == ErrorView::Config("无法打开日志文件 "@ + path@ + ": "@ + reason@),
        subscriber@ == ErrorView::Config("初始化日志订阅器失败: "@ + reason@),
{
}

} // verus!
