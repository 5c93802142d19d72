//! Decoding the server's answers into records.
//!
//! Each function here returns what `schema` says the document stands
//! for: the record, or the failure with the path to the value at fault.

use vstd::prelude::*;
use crate::error::DecodeError;
use crate::error::DecodeErrorView;
use crate::error::ErrorKind;
use crate::error::Field;
use crate::error::Step;
use crate::json::lemma_array_view;
use crate::json::Json;
use crate::json::Number;
use crate::parse::parse;
use crate::parse::parsed;
use crate::parse::syntax_error;
use crate::schema::all_ok;
use crate::schema::build_list_of;
use crate::schema::build_order_of;
use crate::schema::build_order_outcomes;
use crate::schema::build_step_of;
use crate::schema::build_step_outcomes;
use crate::schema::build_steps_of;
use crate::schema::detail_step_of;
use crate::schema::detail_step_outcomes;
use crate::schema::detail_steps_of;
use crate::schema::first_failure;
use crate::schema::integer_in;
use crate::schema::lemma_collected_failure;
use crate::schema::optional_bool;
use crate::schema::optional_detail_steps;
use crate::schema::optional_i64;
use crate::schema::optional_string;
use crate::schema::optional_u8;
use crate::schema::present;
use crate::schema::required_build_steps;
use crate::schema::required_i64;
use crate::schema::required_number;
use crate::schema::required_string;
use crate::schema::required_timestamp;
use crate::schema::status_of;
use crate::schema::timestamp_of;
use crate::types::build_orders_view;
use crate::types::build_steps_view;
use crate::types::detail_steps_view;
use crate::types::text_view;
use crate::types::BuildOrder;
use crate::types::BuildOrderStep;
use crate::types::DetailStep;
use crate::types::Status;
use crate::types::Timestamp;

verus! {

/// The value given for a field that may be left out.
fn lookup_present<'a>(object: &'a Json, field: Field) -> (r: Option<&'a Json>)
    ensures
        match r {
            Some(value) => present(object@, field) == Some(value@),
            None => present(object@, field).is_none(),
        },
{
    match object.get(field.as_str()) {
        None => None,
        Some(value) => match value {
            Json::Null => None,
            _ => Some(value),
        },
    }
}

/// Reads a text that may be left out.
fn read_optional_string(object: &Json, field: Field) -> (r: Result<Option<String>, DecodeError>)
    ensures
        match optional_string(object@, field) {
            Ok(want) => r matches Ok(got) && text_view(got) == want,
            Err(want) => r matches Err(got) && got@ == want,
        },
{
    match lookup_present(object, field) {
        None => Ok(None),
        Some(value) => match value {
            Json::String(text) => Ok(Some(text.clone())),
            _ => Err(DecodeError::at(field, ErrorKind::WrongType)),
        },
    }
}

/// Reads a text that must be there.
fn read_required_string(object: &Json, field: Field) -> (r: Result<String, DecodeError>)
    ensures
        match required_string(object@, field) {
            Ok(want) => r matches Ok(got) && got@ == want,
            Err(want) => r matches Err(got) && got@ == want,
        },
{
    match object.get(field.as_str()) {
        None => Err(DecodeError::at(field, ErrorKind::Missing)),
        Some(value) => match value {
            Json::String(text) => Ok(text.clone()),
            _ => Err(DecodeError::at(field, ErrorKind::WrongType)),
        },
    }
}

/// The 64-bit integer that a value gives.
fn i64_of(value: &Json) -> (r: Result<i64, ErrorKind>)
    ensures
        match integer_in(value@, i64::MIN as int, i64::MAX as int) {
            Ok(want) => r == Ok::<i64, ErrorKind>(want as i64),
            Err(want) => r == Err::<i64, ErrorKind>(want),
        },
{
    match value {
        Json::Number(Number::PosInt(n)) => {
            if *n <= 0x7fff_ffff_ffff_ffff {
                Ok(*n as i64)
            } else {
                Err(ErrorKind::OutOfRange)
            }
        },
        Json::Number(Number::NegInt(n)) => Ok(*n),
        _ => Err(ErrorKind::WrongType),
    }
}

/// The integer from 0 to 255 that a value gives.
fn u8_of(value: &Json) -> (r: Result<u8, ErrorKind>)
    ensures
        match integer_in(value@, 0, u8::MAX as int) {
            Ok(want) => r == Ok::<u8, ErrorKind>(want as u8),
            Err(want) => r == Err::<u8, ErrorKind>(want),
        },
{
    match value {
        Json::Number(Number::PosInt(n)) => {
            if *n <= 255 {
                Ok(*n as u8)
            } else {
                Err(ErrorKind::OutOfRange)
            }
        },
        Json::Number(Number::NegInt(n)) => {
            if 0 <= *n && *n <= 255 {
                Ok(*n as u8)
            } else {
                Err(ErrorKind::OutOfRange)
            }
        },
        _ => Err(ErrorKind::WrongType),
    }
}

/// Reads a 64-bit integer that may be left out.
fn read_optional_i64(object: &Json, field: Field) -> (r: Result<Option<i64>, DecodeError>)
    ensures
        match optional_i64(object@, field) {
            Ok(want) => r matches Ok(got) && got == want,
            Err(want) => r matches Err(got) && got@ == want,
        },
{
    match lookup_present(object, field) {
        None => Ok(None),
        Some(value) => match i64_of(value) {
            Ok(i) => Ok(Some(i)),
            Err(kind) => Err(DecodeError::at(field, kind)),
        },
    }
}

/// Reads a 64-bit integer that must be there.
fn read_required_i64(object: &Json, field: Field) -> (r: Result<i64, DecodeError>)
    ensures
        match required_i64(object@, field) {
            Ok(want) => r matches Ok(got) && got == want,
            Err(want) => r matches Err(got) && got@ == want,
        },
{
    match object.get(field.as_str()) {
        None => Err(DecodeError::at(field, ErrorKind::Missing)),
        Some(value) => match i64_of(value) {
            Ok(i) => Ok(i),
            Err(kind) => Err(DecodeError::at(field, kind)),
        },
    }
}

/// Reads an integer from 0 to 255 that may be left out.
fn read_optional_u8(object: &Json, field: Field) -> (r: Result<Option<u8>, DecodeError>)
    ensures
        match optional_u8(object@, field) {
            Ok(want) => r matches Ok(got) && got == want,
            Err(want) => r matches Err(got) && got@ == want,
        },
{
    match lookup_present(object, field) {
        None => Ok(None),
        Some(value) => match u8_of(value) {
            Ok(i) => Ok(Some(i)),
            Err(kind) => Err(DecodeError::at(field, kind)),
        },
    }
}

/// Reads a truth value that may be left out.
fn read_optional_bool(object: &Json, field: Field) -> (r: Result<Option<bool>, DecodeError>)
    ensures
        match optional_bool(object@, field) {
            Ok(want) => r matches Ok(got) && got == want,
            Err(want) => r matches Err(got) && got@ == want,
        },
{
    match lookup_present(object, field) {
        None => Ok(None),
        Some(value) => match value {
            Json::Bool(b) => Ok(Some(*b)),
            _ => Err(DecodeError::at(field, ErrorKind::WrongType)),
        },
    }
}

/// Reads a number that must be there.
fn read_required_number(object: &Json, field: Field) -> (r: Result<Number, DecodeError>)
    ensures
        match required_number(object@, field) {
            Ok(want) => r matches Ok(got) && got == want,
            Err(want) => r matches Err(got) && got@ == want,
        },
{
    match object.get(field.as_str()) {
        None => Err(DecodeError::at(field, ErrorKind::Missing)),
        Some(value) => match value {
            Json::Number(number) => Ok(*number),
            _ => Err(DecodeError::at(field, ErrorKind::WrongType)),
        },
    }
}

/// Decodes a timestamp.
pub fn timestamp_from_json(json: &Json) -> (r: Result<Timestamp, DecodeError>)
    ensures
        match timestamp_of(json@) {
            Ok(want) => r matches Ok(got) && got == want,
            Err(want) => r matches Err(got) && got@ == want,
        },
{
    match json {
        Json::Object(_) => {},
        _ => {
            return Err(DecodeError::here(ErrorKind::WrongType));
        },
    }
    let seconds = read_required_i64(json, Field::Seconds)?;
    let nanoseconds = read_required_i64(json, Field::Nanoseconds)?;
    Ok(Timestamp { seconds, nanoseconds })
}

/// Reads a timestamp that must be there.
fn read_required_timestamp(object: &Json, field: Field) -> (r: Result<Timestamp, DecodeError>)
    ensures
        match required_timestamp(object@, field) {
            Ok(want) => r matches Ok(got) && got == want,
            Err(want) => r matches Err(got) && got@ == want,
        },
{
    match object.get(field.as_str()) {
        None => Err(DecodeError::at(field, ErrorKind::Missing)),
        Some(value) => match timestamp_from_json(value) {
            Ok(timestamp) => Ok(timestamp),
            Err(e) => Err(e.under(Step::Field(field))),
        },
    }
}

/// Decodes one detail step.
pub fn detail_step_from_json(json: &Json) -> (r: Result<DetailStep, DecodeError>)
    ensures
        match detail_step_of(json@) {
            Ok(want) => r matches Ok(got) && got@ == want,
            Err(want) => r matches Err(got) && got@ == want,
        },
{
    match json {
        Json::Object(_) => {},
        _ => {
            return Err(DecodeError::here(ErrorKind::WrongType));
        },
    }
    let villagers = read_optional_string(json, Field::Villagers)?;
    let builders = read_optional_string(json, Field::Builders)?;
    let food = read_optional_string(json, Field::Food)?;
    let wood = read_optional_string(json, Field::Wood)?;
    let stone = read_optional_string(json, Field::Stone)?;
    let gold = read_optional_string(json, Field::Gold)?;
    let time = read_optional_string(json, Field::Time)?;
    let description = read_optional_string(json, Field::Description)?;
    Ok(DetailStep { villagers, builders, food, wood, stone, gold, time, description })
}

/// Decodes an array of detail steps. One item that fails fails the array.
pub fn detail_steps_from_json(json: &Json) -> (r: Result<Vec<DetailStep>, DecodeError>)
    ensures
        match detail_steps_of(json@) {
            Ok(want) => r matches Ok(got) && detail_steps_view(got@) == want,
            Err(want) => r matches Err(got) && got@ == want,
        },
{
    match json {
        Json::Array(items) => {
            let ghost outcomes = detail_step_outcomes(json@->Array_0);
            proof {
                lemma_array_view(json);
            }
            let mut out: Vec<DetailStep> = Vec::new();
            let mut i: usize = 0;
            while i < items.len()
                invariant
                    i <= items@.len(),
                    out@.len() == i,
                    json@ is Array,
                    json@->Array_0.len() == items@.len(),
                    outcomes == detail_step_outcomes(json@->Array_0),
                    forall|k: int|
                        0 <= k < items@.len() ==> json@->Array_0[k] == (#[trigger] items@[k])@,
                    forall|k: int|
                        0 <= k < i ==> (#[trigger] outcomes[k]) == Ok::<_, DecodeErrorView>(
                            out@[k]@,
                        ),
                decreases items@.len() - i,
            {
                match detail_step_from_json(&items[i]) {
                    Ok(item) => {
                        out.push(item);
                    },
                    Err(e) => {
                        proof {
                            assert(outcomes[i as int] == detail_step_of(items@[i as int]@));
                            assert(first_failure(outcomes, i as int));
                            lemma_collected_failure(outcomes, i as int);
                        }
                        return Err(e.under(Step::Index(i)));
                    },
                }
                proof {
                    assert(outcomes[i as int] == detail_step_of(items@[i as int]@));
                }
                i = i + 1;
            }
            proof {
                assert(all_ok(outcomes));
                assert(detail_steps_view(out@) =~= outcomes.map_values(
                    |outcome: Result<_, DecodeErrorView>| outcome->Ok_0,
                ));
            }
            Ok(out)
        },
        _ => Err(DecodeError::here(ErrorKind::WrongType)),
    }
}

/// Reads the detail steps of a phase, which may be left out.
fn read_optional_detail_steps(object: &Json, field: Field) -> (r: Result<
    Option<Vec<DetailStep>>,
    DecodeError,
>)
    ensures
        match optional_detail_steps(object@, field) {
            Ok(want) => r matches Ok(got) && match got {
                Some(steps) => want == Some(detail_steps_view(steps@)),
                None => want.is_none(),
            },
            Err(want) => r matches Err(got) && got@ == want,
        },
{
    match lookup_present(object, field) {
        None => Ok(None),
        Some(value) => match detail_steps_from_json(value) {
            Ok(steps) => Ok(Some(steps)),
            Err(e) => Err(e.under(Step::Field(field))),
        },
    }
}

/// Decodes one phase of a build order.
pub fn build_step_from_json(json: &Json) -> (r: Result<BuildOrderStep, DecodeError>)
    ensures
        match build_step_of(json@) {
            Ok(want) => r matches Ok(got) && got@ == want,
            Err(want) => r matches Err(got) && got@ == want,
        },
{
    match json {
        Json::Object(_) => {},
        _ => {
            return Err(DecodeError::here(ErrorKind::WrongType));
        },
    }
    let gameplan = read_optional_string(json, Field::Gameplan)?;
    let age = read_optional_u8(json, Field::Age)?;
    let step_type = read_optional_string(json, Field::StepType)?;
    let steps = read_optional_detail_steps(json, Field::Steps)?;
    Ok(BuildOrderStep { gameplan, age, step_type, steps })
}

/// Decodes an array of phases. One item that fails fails the array.
pub fn build_steps_from_json(json: &Json) -> (r: Result<Vec<BuildOrderStep>, DecodeError>)
    ensures
        match build_steps_of(json@) {
            Ok(want) => r matches Ok(got) && build_steps_view(got@) == want,
            Err(want) => r matches Err(got) && got@ == want,
        },
{
    match json {
        Json::Array(items) => {
            let ghost outcomes = build_step_outcomes(json@->Array_0);
            proof {
                lemma_array_view(json);
            }
            let mut out: Vec<BuildOrderStep> = Vec::new();
            let mut i: usize = 0;
            while i < items.len()
                invariant
                    i <= items@.len(),
                    out@.len() == i,
                    json@ is Array,
                    json@->Array_0.len() == items@.len(),
                    outcomes == build_step_outcomes(json@->Array_0),
                    forall|k: int|
                        0 <= k < items@.len() ==> json@->Array_0[k] == (#[trigger] items@[k])@,
                    forall|k: int|
                        0 <= k < i ==> (#[trigger] outcomes[k]) == Ok::<_, DecodeErrorView>(
                            out@[k]@,
                        ),
                decreases items@.len() - i,
            {
                match build_step_from_json(&items[i]) {
                    Ok(item) => {
                        out.push(item);
                    },
                    Err(e) => {
                        proof {
                            assert(outcomes[i as int] == build_step_of(items@[i as int]@));
                            assert(first_failure(outcomes, i as int));
                            lemma_collected_failure(outcomes, i as int);
                        }
                        return Err(e.under(Step::Index(i)));
                    },
                }
                proof {
                    assert(outcomes[i as int] == build_step_of(items@[i as int]@));
                }
                i = i + 1;
            }
            proof {
                assert(all_ok(outcomes));
                assert(build_steps_view(out@) =~= outcomes.map_values(
                    |outcome: Result<_, DecodeErrorView>| outcome->Ok_0,
                ));
            }
            Ok(out)
        },
        _ => Err(DecodeError::here(ErrorKind::WrongType)),
    }
}

/// Reads the phases of a build order, which must be there.
fn read_required_build_steps(object: &Json, field: Field) -> (r: Result<
    Vec<BuildOrderStep>,
    DecodeError,
>)
    ensures
        match required_build_steps(object@, field) {
            Ok(want) => r matches Ok(got) && build_steps_view(got@) == want,
            Err(want) => r matches Err(got) && got@ == want,
        },
{
    match object.get(field.as_str()) {
        None => Err(DecodeError::at(field, ErrorKind::Missing)),
        Some(value) => match build_steps_from_json(value) {
            Ok(steps) => Ok(steps),
            Err(e) => Err(e.under(Step::Field(field))),
        },
    }
}

/// Decodes one build order.
pub fn build_order_from_json(json: &Json) -> (r: Result<BuildOrder, DecodeError>)
    ensures
        match build_order_of(json@) {
            Ok(want) => r matches Ok(got) && got@ == want,
            Err(want) => r matches Err(got) && got@ == want,
        },
{
    match json {
        Json::Object(_) => {},
        _ => {
            return Err(DecodeError::here(ErrorKind::WrongType));
        },
    }
    let id = read_optional_string(json, Field::Id)?;
    let title = read_optional_string(json, Field::Title)?;
    let description = read_optional_string(json, Field::Description)?;
    let video = read_optional_string(json, Field::Video)?;
    let author = read_optional_string(json, Field::Author)?;
    let author_uid = read_required_string(json, Field::AuthorUid)?;
    let civ = read_optional_string(json, Field::Civ)?;
    let comments = read_optional_i64(json, Field::Comments)?;
    let likes = read_optional_i64(json, Field::Likes)?;
    let map = read_optional_string(json, Field::GameMap)?;
    let season = read_optional_string(json, Field::Season)?;
    let score = read_required_number(json, Field::Score)?;
    let score_all_time = read_required_number(json, Field::ScoreAllTime)?;
    let sort_title = read_required_string(json, Field::SortTitle)?;
    let steps = read_required_build_steps(json, Field::Steps)?;
    let strategy = read_optional_string(json, Field::Strategy)?;
    let time_created = read_required_timestamp(json, Field::TimeCreated)?;
    let time_updated = read_required_timestamp(json, Field::TimeUpdated)?;
    let upvotes = read_optional_i64(json, Field::Upvotes)?;
    let views = read_required_i64(json, Field::Views)?;
    let is_draft = read_optional_bool(json, Field::IsDraft)?;
    Ok(BuildOrder { id, title, description, video, author, author_uid, civ, comments, likes, map, season, score, score_all_time, sort_title, steps, strategy, time_created, time_updated, upvotes, views, is_draft })
}

/// Decodes an array of build orders. One item that fails fails the array.
pub fn build_list_from_json(json: &Json) -> (r: Result<Vec<BuildOrder>, DecodeError>)
    ensures
        match build_list_of(json@) {
            Ok(want) => r matches Ok(got) && build_orders_view(got@) == want,
            Err(want) => r matches Err(got) && got@ == want,
        },
{
    match json {
        Json::Array(items) => {
            let ghost outcomes = build_order_outcomes(json@->Array_0);
            proof {
                lemma_array_view(json);
            }
            let mut out: Vec<BuildOrder> = Vec::new();
            let mut i: usize = 0;
            while i < items.len()
                invariant
                    i <= items@.len(),
                    out@.len() == i,
                    json@ is Array,
                    json@->Array_0.len() == items@.len(),
                    outcomes == build_order_outcomes(json@->Array_0),
                    forall|k: int|
                        0 <= k < items@.len() ==> json@->Array_0[k] == (#[trigger] items@[k])@,
                    forall|k: int|
                        0 <= k < i ==> (#[trigger] outcomes[k]) == Ok::<_, DecodeErrorView>(
                            out@[k]@,
                        ),
                decreases items@.len() - i,
            {
                match build_order_from_json(&items[i]) {
                    Ok(item) => {
                        out.push(item);
                    },
                    Err(e) => {
                        proof {
                            assert(outcomes[i as int] == build_order_of(items@[i as int]@));
                            assert(first_failure(outcomes, i as int));
                            lemma_collected_failure(outcomes, i as int);
                        }
                        return Err(e.under(Step::Index(i)));
                    },
                }
                proof {
                    assert(outcomes[i as int] == build_order_of(items@[i as int]@));
                }
                i = i + 1;
            }
            proof {
                assert(all_ok(outcomes));
                assert(build_orders_view(out@) =~= outcomes.map_values(
                    |outcome: Result<_, DecodeErrorView>| outcome->Ok_0,
                ));
            }
            Ok(out)
        },
        _ => Err(DecodeError::here(ErrorKind::WrongType)),
    }
}

/// Decodes the answer to a health check.
pub fn status_from_json(json: &Json) -> (r: Result<Status, DecodeError>)
    ensures
        match status_of(json@) {
            Ok(want) => r matches Ok(got) && got@ == want,
            Err(want) => r matches Err(got) && got@ == want,
        },
{
    match json {
        Json::Object(_) => {},
        _ => {
            return Err(DecodeError::here(ErrorKind::WrongType));
        },
    }
    let status = read_required_string(json, Field::Status)?;
    Ok(Status { status })
}

/// Decodes the body of an answer to a health check.
pub fn decode_status(body: &[u8]) -> (r: Result<Status, DecodeError>)
    ensures
        match parsed(body@) {
            Ok(document) => match status_of(document) {
                Ok(want) => r matches Ok(got) && got@ == want,
                Err(want) => r matches Err(got) && got@ == want,
            },
            Err(position) => r matches Err(got) && got@ == syntax_error(position),
        },
{
    match parse(body) {
        Ok(json) => status_from_json(&json),
        Err(e) => Err(e),
    }
}

/// Decodes the body of an answer that holds one build order.
pub fn decode_build(body: &[u8]) -> (r: Result<BuildOrder, DecodeError>)
    ensures
        match parsed(body@) {
            Ok(document) => match build_order_of(document) {
                Ok(want) => r matches Ok(got) && got@ == want,
                Err(want) => r matches Err(got) && got@ == want,
            },
            Err(position) => r matches Err(got) && got@ == syntax_error(position),
        },
{
    match parse(body) {
        Ok(json) => build_order_from_json(&json),
        Err(e) => Err(e),
    }
}

/// Decodes the body of an answer that holds a list of build orders: the
/// list of all of them, or of a user's favourites.
pub fn decode_build_list(body: &[u8]) -> (r: Result<Vec<BuildOrder>, DecodeError>)
    ensures
        match parsed(body@) {
            Ok(document) => match build_list_of(document) {
                Ok(want) => r matches Ok(got) && build_orders_view(got@) == want,
                Err(want) => r matches Err(got) && got@ == want,
            },
            Err(position) => r matches Err(got) && got@ == syntax_error(position),
        },
{
    match parse(body) {
        Ok(json) => build_list_from_json(&json),
        Err(e) => Err(e),
    }
}

} // verus!
