use orda::decode::build_list_from_json;
use orda::decode::build_order_from_json;
use orda::decode::build_step_from_json;
use orda::decode::build_steps_from_json;
use orda::decode::decode_build;
use orda::decode::decode_build_list;
use orda::decode::decode_status;
use orda::decode::detail_step_from_json;
use orda::decode::detail_steps_from_json;
use orda::decode::status_from_json;
use orda::decode::timestamp_from_json;
use orda::error::DecodeError;
use orda::error::ErrorKind;
use orda::error::Field;
use orda::error::Step;
use orda::json::Json;
use orda::json::Number;
use orda::types::Timestamp;

const MINIMAL: &str = r#"{
    "authorUid": "u1",
    "score": 12.5,
    "scoreAllTime": 40,
    "sortTitle": "fast castle",
    "steps": [],
    "timeCreated": {"_seconds": 1700000000, "_nanoseconds": 5},
    "timeUpdated": {"_seconds": 1700000100, "_nanoseconds": 0},
    "views": 7
}"#;

fn minimal_with(extra: &str) -> String {
    format!(
        r#"{{"authorUid": "u1", "score": 1, "scoreAllTime": 2, "sortTitle": "t",
            "timeCreated": {{"_seconds": 1, "_nanoseconds": 2}},
            "timeUpdated": {{"_seconds": 3, "_nanoseconds": 4}},
            "views": 7{}}}"#,
        extra
    )
}

fn numbered(i: usize) -> String {
    format!(
        r#"{{"id": "b{}", "authorUid": "u{}", "score": {}, "scoreAllTime": 2, "sortTitle": "t",
            "steps": [],
            "timeCreated": {{"_seconds": 1, "_nanoseconds": 2}},
            "timeUpdated": {{"_seconds": 3, "_nanoseconds": 4}},
            "views": {}}}"#,
        i, i, i, i
    )
}

fn failure(kind: ErrorKind, path: Vec<Step>) -> DecodeError {
    DecodeError { kind, path }
}

fn text(s: &str) -> Json {
    Json::String(s.to_string())
}

fn whole(n: u64) -> Json {
    Json::Number(Number::PosInt(n))
}

fn object(members: Vec<(&str, Json)>) -> Json {
    Json::Object(members.into_iter().map(|(k, v)| (k.to_string(), v)).collect())
}

fn timestamp_json(seconds: u64, nanoseconds: u64) -> Json {
    object(vec![("_seconds", whole(seconds)), ("_nanoseconds", whole(nanoseconds))])
}

fn minimal_json() -> Vec<(&'static str, Json)> {
    vec![
        ("authorUid", text("u1")),
        ("score", whole(1)),
        ("scoreAllTime", whole(2)),
        ("sortTitle", text("t")),
        ("steps", Json::Array(vec![])),
        ("timeCreated", timestamp_json(1, 2)),
        ("timeUpdated", timestamp_json(3, 4)),
        ("views", whole(7)),
    ]
}

#[test]
fn status_running() {
    let status = decode_status(r#"{"status": "running"}"#.as_bytes()).unwrap();
    assert_eq!(status.status, "running");
}

#[test]
fn status_is_whatever_the_server_says() {
    let status = decode_status(r#"{"status": "down for maintenance", "since": 5}"#.as_bytes()).unwrap();
    assert_eq!(status.status, "down for maintenance");
}

#[test]
fn status_must_be_an_object_with_a_text() {
    assert_eq!(
        decode_status(r#"{}"#.as_bytes()),
        Err(failure(ErrorKind::Missing, vec![Step::Field(Field::Status)]))
    );
    assert_eq!(
        decode_status(r#"{"status": null}"#.as_bytes()),
        Err(failure(ErrorKind::WrongType, vec![Step::Field(Field::Status)]))
    );
    assert_eq!(
        decode_status(r#"{"status": 1}"#.as_bytes()),
        Err(failure(ErrorKind::WrongType, vec![Step::Field(Field::Status)]))
    );
    assert_eq!(decode_status(r#"["running"]"#.as_bytes()), Err(failure(ErrorKind::WrongType, vec![])));
    assert_eq!(decode_status(r#""running""#.as_bytes()), Err(failure(ErrorKind::WrongType, vec![])));
}

#[test]
fn text_that_is_not_json_is_a_syntax_error() {
    assert_eq!(
        decode_status("{\"status\": }".as_bytes()),
        Err(failure(ErrorKind::Syntax { line: 1, column: 12 }, vec![]))
    );
    assert_eq!(
        decode_build("{\n  \"authorUid\" \"u1\"\n}".as_bytes()),
        Err(failure(ErrorKind::Syntax { line: 2, column: 15 }, vec![]))
    );
    assert!(matches!(
        decode_build_list("".as_bytes()),
        Err(DecodeError { kind: ErrorKind::Syntax { .. }, .. })
    ));
    assert!(matches!(
        decode_build_list("[] []".as_bytes()),
        Err(DecodeError { kind: ErrorKind::Syntax { .. }, .. })
    ));
}

#[test]
fn mandatory_fields_alone_decode() {
    let build = decode_build(MINIMAL.as_bytes()).unwrap();
    assert_eq!(build.id, None);
    assert_eq!(build.title, None);
    assert_eq!(build.description, None);
    assert_eq!(build.video, None);
    assert_eq!(build.author, None);
    assert_eq!(build.author_uid, "u1");
    assert_eq!(build.civ, None);
    assert_eq!(build.comments, None);
    assert_eq!(build.likes, None);
    assert_eq!(build.map, None);
    assert_eq!(build.season, None);
    assert_eq!(build.score, Number::Float(12.5f64.to_bits()));
    assert_eq!(build.score_all_time, Number::PosInt(40));
    assert_eq!(build.sort_title, "fast castle");
    assert!(build.steps.is_empty());
    assert_eq!(build.strategy, None);
    assert_eq!(build.time_created, Timestamp { seconds: 1700000000, nanoseconds: 5 });
    assert_eq!(build.time_updated, Timestamp { seconds: 1700000100, nanoseconds: 0 });
    assert_eq!(build.upvotes, None);
    assert_eq!(build.views, 7);
    assert_eq!(build.is_draft, None);
}

#[test]
fn missing_author_uid_is_a_decode_error() {
    let body = r#"{
        "score": 12.5, "scoreAllTime": 40, "sortTitle": "t", "steps": [],
        "timeCreated": {"_seconds": 1, "_nanoseconds": 2},
        "timeUpdated": {"_seconds": 3, "_nanoseconds": 4},
        "views": 7
    }"#;
    assert_eq!(
        decode_build(body.as_bytes()),
        Err(failure(ErrorKind::Missing, vec![Step::Field(Field::AuthorUid)]))
    );
}

#[test]
fn each_mandatory_field_is_needed() {
    let fields = vec![
        ("authorUid", Field::AuthorUid),
        ("score", Field::Score),
        ("scoreAllTime", Field::ScoreAllTime),
        ("sortTitle", Field::SortTitle),
        ("steps", Field::Steps),
        ("timeCreated", Field::TimeCreated),
        ("timeUpdated", Field::TimeUpdated),
        ("views", Field::Views),
    ];
    for (name, field) in fields {
        let members: Vec<(&str, Json)> =
            minimal_json().into_iter().filter(|m| m.0 != name).collect();
        assert_eq!(
            build_order_from_json(&object(members)),
            Err(failure(ErrorKind::Missing, vec![Step::Field(field)]))
        );
        let mut members = minimal_json();
        for m in members.iter_mut() {
            if m.0 == name {
                m.1 = Json::Null;
            }
        }
        assert_eq!(
            build_order_from_json(&object(members)),
            Err(failure(ErrorKind::WrongType, vec![Step::Field(field)]))
        );
    }
    assert!(build_order_from_json(&object(minimal_json())).is_ok());
}

#[test]
fn ten_build_orders_keep_their_order() {
    let items: Vec<String> = (0..10).map(numbered).collect();
    let body = format!("[{}]", items.join(","));
    let builds = decode_build_list(body.as_bytes()).unwrap();
    assert_eq!(builds.len(), 10);
    for (i, build) in builds.iter().enumerate() {
        assert_eq!(build.id, Some(format!("b{}", i)));
        assert_eq!(build.author_uid, format!("u{}", i));
        assert_eq!(build.views, i as i64);
        assert_eq!(build.score, Number::PosInt(i as u64));
    }
}

#[test]
fn empty_list_decodes_to_no_build_orders() {
    assert_eq!(decode_build_list("[]".as_bytes()).unwrap().len(), 0);
    assert_eq!(decode_build_list(" [ ] ".as_bytes()).unwrap().len(), 0);
}

#[test]
fn a_list_must_be_an_array() {
    assert_eq!(decode_build_list(MINIMAL.as_bytes()), Err(failure(ErrorKind::WrongType, vec![])));
    assert_eq!(decode_build_list("null".as_bytes()), Err(failure(ErrorKind::WrongType, vec![])));
    assert_eq!(decode_build("[]".as_bytes()), Err(failure(ErrorKind::WrongType, vec![])));
}

#[test]
fn one_bad_item_fails_the_list() {
    let bad = r#"{"authorUid": "u", "score": 1}"#;
    let body = format!("[{},{},{},{}]", numbered(0), numbered(1), bad, bad);
    assert_eq!(
        decode_build_list(body.as_bytes()),
        Err(failure(
            ErrorKind::Missing,
            vec![Step::Index(2), Step::Field(Field::ScoreAllTime)]
        ))
    );
}

#[test]
fn nested_detail_steps_are_kept_as_given() {
    let body = minimal_with(
        r#", "steps": [{
            "gameplan": "boom", "age": 2, "type": "ageUp",
            "steps": [
                {"villagers": "8", "food": "5", "time": "2:30", "description": "<b>build</b>"},
                {"builders": "1-2", "wood": "3", "stone": "0", "gold": "~4", "time": "03:10"}
            ]
        }]"#,
    );
    let build = decode_build(body.as_bytes()).unwrap();
    assert_eq!(build.steps.len(), 1);
    let phase = &build.steps[0];
    assert_eq!(phase.gameplan.as_deref(), Some("boom"));
    assert_eq!(phase.age, Some(2));
    assert_eq!(phase.step_type.as_deref(), Some("ageUp"));
    let details = phase.steps.as_ref().unwrap();
    assert_eq!(details.len(), 2);
    assert_eq!(details[0].villagers.as_deref(), Some("8"));
    assert_eq!(details[0].builders, None);
    assert_eq!(details[0].food.as_deref(), Some("5"));
    assert_eq!(details[0].wood, None);
    assert_eq!(details[0].stone, None);
    assert_eq!(details[0].gold, None);
    assert_eq!(details[0].time.as_deref(), Some("2:30"));
    assert_eq!(details[0].description.as_deref(), Some("<b>build</b>"));
    assert_eq!(details[1].villagers, None);
    assert_eq!(details[1].builders.as_deref(), Some("1-2"));
    assert_eq!(details[1].food, None);
    assert_eq!(details[1].wood.as_deref(), Some("3"));
    assert_eq!(details[1].stone.as_deref(), Some("0"));
    assert_eq!(details[1].gold.as_deref(), Some("~4"));
    assert_eq!(details[1].time.as_deref(), Some("03:10"));
    assert_eq!(details[1].description, None);
}

#[test]
fn a_number_is_not_read_as_a_text() {
    let body = minimal_with(r#", "steps": [{"steps": [{"food": "5"}, {"food": 5}]}]"#);
    assert_eq!(
        decode_build(body.as_bytes()),
        Err(failure(
            ErrorKind::WrongType,
            vec![
                Step::Field(Field::Steps),
                Step::Index(0),
                Step::Field(Field::Steps),
                Step::Index(1),
                Step::Field(Field::Food),
            ]
        ))
    );
}

#[test]
fn a_text_is_not_read_as_a_number() {
    let body = minimal_with(r#", "steps": [], "likes": "3""#);
    assert_eq!(
        decode_build(body.as_bytes()),
        Err(failure(ErrorKind::WrongType, vec![Step::Field(Field::Likes)]))
    );
}

#[test]
fn every_optional_field_is_read() {
    let body = minimal_with(
        r#", "steps": [], "id": "abc", "title": "T", "description": "D", "video": "V",
            "author": "A", "civ": "FRE", "comments": 1, "likes": -2, "map": "Arabia",
            "season": "S5", "strategy": "rush", "upvotes": 9223372036854775807,
            "isDraft": false"#,
    );
    let build = decode_build(body.as_bytes()).unwrap();
    assert_eq!(build.id.as_deref(), Some("abc"));
    assert_eq!(build.title.as_deref(), Some("T"));
    assert_eq!(build.description.as_deref(), Some("D"));
    assert_eq!(build.video.as_deref(), Some("V"));
    assert_eq!(build.author.as_deref(), Some("A"));
    assert_eq!(build.civ.as_deref(), Some("FRE"));
    assert_eq!(build.comments, Some(1));
    assert_eq!(build.likes, Some(-2));
    assert_eq!(build.map.as_deref(), Some("Arabia"));
    assert_eq!(build.season.as_deref(), Some("S5"));
    assert_eq!(build.strategy.as_deref(), Some("rush"));
    assert_eq!(build.upvotes, Some(i64::MAX));
    assert_eq!(build.is_draft, Some(false));
    assert_eq!(build.score, Number::PosInt(1));
    assert_eq!(build.score_all_time, Number::PosInt(2));
    assert_eq!(build.time_created, Timestamp { seconds: 1, nanoseconds: 2 });
    assert_eq!(build.time_updated, Timestamp { seconds: 3, nanoseconds: 4 });
}

#[test]
fn null_stands_for_an_absent_optional_field() {
    let body = minimal_with(
        r#", "steps": [{"gameplan": null, "age": null, "type": null, "steps": null}],
            "id": null, "comments": null, "isDraft": null"#,
    );
    let build = decode_build(body.as_bytes()).unwrap();
    assert_eq!(build.id, None);
    assert_eq!(build.comments, None);
    assert_eq!(build.is_draft, None);
    assert_eq!(build.steps.len(), 1);
    assert_eq!(build.steps[0].gameplan, None);
    assert_eq!(build.steps[0].age, None);
    assert_eq!(build.steps[0].step_type, None);
    assert_eq!(build.steps[0].steps, None);
}

#[test]
fn draft_flag_has_three_states() {
    let absent = decode_build(minimal_with(r#", "steps": []"#).as_bytes()).unwrap();
    let yes = decode_build(minimal_with(r#", "steps": [], "isDraft": true"#).as_bytes()).unwrap();
    let no = decode_build(minimal_with(r#", "steps": [], "isDraft": false"#).as_bytes()).unwrap();
    assert_eq!(absent.is_draft, None);
    assert_eq!(yes.is_draft, Some(true));
    assert_eq!(no.is_draft, Some(false));
    assert_eq!(
        decode_build(minimal_with(r#", "steps": [], "isDraft": "true""#).as_bytes()),
        Err(failure(ErrorKind::WrongType, vec![Step::Field(Field::IsDraft)]))
    );
}

#[test]
fn scores_are_kept_as_they_came() {
    let body = r#"{"authorUid": "u", "score": -3, "scoreAllTime": 0.25, "sortTitle": "t",
        "steps": [], "timeCreated": {"_seconds": 1, "_nanoseconds": 2},
        "timeUpdated": {"_seconds": 3, "_nanoseconds": 4}, "views": 0}"#;
    let build = decode_build(body.as_bytes()).unwrap();
    assert_eq!(build.score, Number::NegInt(-3));
    assert_eq!(build.score_all_time, Number::Float(0.25f64.to_bits()));
    let body = body.replace("-3", "18446744073709551615").replace("0.25", "-1e3");
    let build = decode_build(body.as_bytes()).unwrap();
    assert_eq!(build.score, Number::PosInt(u64::MAX));
    assert_eq!(build.score_all_time, Number::Float((-1000.0f64).to_bits()));
}

#[test]
fn a_score_must_be_a_number() {
    let body = MINIMAL.replace("12.5", "\"12.5\"");
    assert_eq!(
        decode_build(body.as_bytes()),
        Err(failure(ErrorKind::WrongType, vec![Step::Field(Field::Score)]))
    );
}

#[test]
fn views_must_be_an_integer_that_fits() {
    let with_views = |v: &str| {
        decode_build(MINIMAL.replace("\"views\": 7", &format!("\"views\": {}", v)).as_bytes())
    };
    assert_eq!(with_views("-9223372036854775808").unwrap().views, i64::MIN);
    assert_eq!(with_views("9223372036854775807").unwrap().views, i64::MAX);
    assert_eq!(
        with_views("9223372036854775808"),
        Err(failure(ErrorKind::OutOfRange, vec![Step::Field(Field::Views)]))
    );
    assert_eq!(
        with_views("7.0"),
        Err(failure(ErrorKind::WrongType, vec![Step::Field(Field::Views)]))
    );
    assert_eq!(
        with_views("\"7\""),
        Err(failure(ErrorKind::WrongType, vec![Step::Field(Field::Views)]))
    );
    assert_eq!(
        with_views("true"),
        Err(failure(ErrorKind::WrongType, vec![Step::Field(Field::Views)]))
    );
}

#[test]
fn age_must_fit_in_a_byte() {
    let with_age = |v: Json| build_step_from_json(&object(vec![("age", v)]));
    assert_eq!(with_age(whole(0)).unwrap().age, Some(0));
    assert_eq!(with_age(whole(4)).unwrap().age, Some(4));
    assert_eq!(with_age(whole(255)).unwrap().age, Some(255));
    assert_eq!(with_age(Json::Number(Number::NegInt(3))).unwrap().age, Some(3));
    assert_eq!(
        with_age(whole(256)),
        Err(failure(ErrorKind::OutOfRange, vec![Step::Field(Field::Age)]))
    );
    assert_eq!(
        with_age(Json::Number(Number::NegInt(-1))),
        Err(failure(ErrorKind::OutOfRange, vec![Step::Field(Field::Age)]))
    );
    assert_eq!(
        with_age(Json::Number(Number::Float(2.0f64.to_bits()))),
        Err(failure(ErrorKind::WrongType, vec![Step::Field(Field::Age)]))
    );
    assert_eq!(
        with_age(text("2")),
        Err(failure(ErrorKind::WrongType, vec![Step::Field(Field::Age)]))
    );
}

#[test]
fn timestamp_needs_both_parts() {
    assert_eq!(
        timestamp_from_json(&timestamp_json(10, 20)),
        Ok(Timestamp { seconds: 10, nanoseconds: 20 })
    );
    assert_eq!(
        timestamp_from_json(&object(vec![("_seconds", whole(10))])),
        Err(failure(ErrorKind::Missing, vec![Step::Field(Field::Nanoseconds)]))
    );
    assert_eq!(
        timestamp_from_json(&object(vec![("_nanoseconds", whole(10))])),
        Err(failure(ErrorKind::Missing, vec![Step::Field(Field::Seconds)]))
    );
    assert_eq!(
        timestamp_from_json(&object(vec![("seconds", whole(1)), ("nanoseconds", whole(2))])),
        Err(failure(ErrorKind::Missing, vec![Step::Field(Field::Seconds)]))
    );
    assert_eq!(timestamp_from_json(&whole(10)), Err(failure(ErrorKind::WrongType, vec![])));
}

#[test]
fn a_bad_timestamp_is_reported_under_its_field() {
    let body = MINIMAL.replace("\"_nanoseconds\": 0", "\"_nanoseconds\": \"0\"");
    assert_eq!(
        decode_build(body.as_bytes()),
        Err(failure(
            ErrorKind::WrongType,
            vec![Step::Field(Field::TimeUpdated), Step::Field(Field::Nanoseconds)]
        ))
    );
    let body = MINIMAL.replace("{\"_seconds\": 1700000000, \"_nanoseconds\": 5}", "1700000000");
    assert_eq!(
        decode_build(body.as_bytes()),
        Err(failure(ErrorKind::WrongType, vec![Step::Field(Field::TimeCreated)]))
    );
}

#[test]
fn the_first_failing_field_decides() {
    let mut members = minimal_json();
    members.retain(|m| m.0 != "views" && m.0 != "sortTitle");
    members.push(("title", whole(3)));
    assert_eq!(
        build_order_from_json(&object(members)),
        Err(failure(ErrorKind::WrongType, vec![Step::Field(Field::Title)]))
    );
    let mut members = minimal_json();
    members.retain(|m| m.0 != "views" && m.0 != "sortTitle");
    assert_eq!(
        build_order_from_json(&object(members)),
        Err(failure(ErrorKind::Missing, vec![Step::Field(Field::SortTitle)]))
    );
}

#[test]
fn unknown_members_are_passed_over() {
    let body = minimal_with(r#", "steps": [], "extra": {"a": [1, 2, {"b": null}]}, "Id": 5"#);
    let build = decode_build(body.as_bytes()).unwrap();
    assert_eq!(build.id, None);
    assert_eq!(build.views, 7);
}

#[test]
fn steps_must_be_an_array() {
    let body = minimal_with(r#", "steps": {}"#);
    assert_eq!(
        decode_build(body.as_bytes()),
        Err(failure(ErrorKind::WrongType, vec![Step::Field(Field::Steps)]))
    );
    assert_eq!(
        build_step_from_json(&object(vec![("steps", text("x"))])),
        Err(failure(ErrorKind::WrongType, vec![Step::Field(Field::Steps)]))
    );
    assert_eq!(build_steps_from_json(&Json::Null), Err(failure(ErrorKind::WrongType, vec![])));
    assert_eq!(detail_steps_from_json(&Json::Bool(true)), Err(failure(ErrorKind::WrongType, vec![])));
}

#[test]
fn a_phase_may_be_empty() {
    let phase = build_step_from_json(&object(vec![])).unwrap();
    assert_eq!(phase.gameplan, None);
    assert_eq!(phase.age, None);
    assert_eq!(phase.step_type, None);
    assert_eq!(phase.steps, None);
    let phase = build_step_from_json(&object(vec![("steps", Json::Array(vec![]))])).unwrap();
    assert_eq!(phase.steps, Some(vec![]));
    assert_eq!(build_step_from_json(&Json::Array(vec![])), Err(failure(ErrorKind::WrongType, vec![])));
}

#[test]
fn the_type_tag_is_an_open_text() {
    let phase = build_step_from_json(&object(vec![("type", text("somethingNew"))])).unwrap();
    assert_eq!(phase.step_type.as_deref(), Some("somethingNew"));
}

#[test]
fn detail_steps_fail_at_the_first_bad_item() {
    let items = Json::Array(vec![
        object(vec![("food", text("1"))]),
        object(vec![("wood", Json::Bool(true))]),
        object(vec![("gold", whole(1))]),
    ]);
    assert_eq!(
        detail_steps_from_json(&items),
        Err(failure(ErrorKind::WrongType, vec![Step::Index(1), Step::Field(Field::Wood)]))
    );
    let items = Json::Array(vec![object(vec![]), Json::Null]);
    assert_eq!(
        detail_steps_from_json(&items),
        Err(failure(ErrorKind::WrongType, vec![Step::Index(1)]))
    );
    let step = detail_step_from_json(&object(vec![("time", text("1:00"))])).unwrap();
    assert_eq!(step.time.as_deref(), Some("1:00"));
}

#[test]
fn where_a_name_comes_twice_the_later_value_stands() {
    let json = object(vec![("status", text("first")), ("status", text("second"))]);
    assert_eq!(status_from_json(&json).unwrap().status, "second");
    let json = object(vec![("status", text("first")), ("status", whole(2))]);
    assert_eq!(
        status_from_json(&json),
        Err(failure(ErrorKind::WrongType, vec![Step::Field(Field::Status)]))
    );
}

#[test]
fn a_list_from_values_keeps_every_item() {
    let items: Vec<Json> = (0..3)
        .map(|i| {
            let mut members = minimal_json();
            members.push(("likes", whole(i)));
            object(members)
        })
        .collect();
    let builds = build_list_from_json(&Json::Array(items)).unwrap();
    assert_eq!(builds.len(), 3);
    for (i, build) in builds.iter().enumerate() {
        assert_eq!(build.likes, Some(i as i64));
    }
}

#[test]
fn a_body_that_is_not_utf8_is_a_syntax_error() {
    assert!(matches!(
        decode_status(&[0xff, 0xfe]),
        Err(DecodeError { kind: ErrorKind::Syntax { .. }, .. })
    ));
    assert!(matches!(
        decode_status(b"{\"status\": \"\xff\"}"),
        Err(DecodeError { kind: ErrorKind::Syntax { line: 1, .. }, .. })
    ));
    assert_eq!(decode_status(b"{\"status\": \"\xc3\xa9\"}").unwrap().status, "\u{e9}");
}
