//! The schema of the server's answers: which record, or which failure,
//! a JSON document stands for.
//!
//! A record is read from a JSON object. Its fields are looked up by the
//! server's names for them; members that the record does not know are
//! passed over. The fields are judged in the order in which the record
//! declares them, and the first one that fails decides the failure.

use vstd::prelude::*;
use crate::error::DecodeErrorView;
use crate::error::ErrorKind;
use crate::error::Field;
use crate::error::Step;
use crate::json::lemma_member_after_push;
use crate::json::JsonView;
use crate::json::Number;
use crate::types::BuildOrderStepView;
use crate::types::BuildOrderView;
use crate::types::DetailStepView;
use crate::types::StatusView;
use crate::types::Timestamp;

verus! {

/// The value given for a field that may be left out: none where the
/// object has no such member, and none where the member is `null`.
pub open spec fn present(object: JsonView, field: Field) -> Option<JsonView> {
    match object.member(field.name()) {
        None => None,
        Some(JsonView::Null) => None,
        Some(value) => Some(value),
    }
}

/// A text that may be left out. Only a JSON string is a text.
pub open spec fn optional_string(object: JsonView, field: Field) -> Result<
    Option<Seq<char>>,
    DecodeErrorView,
> {
    match present(object, field) {
        None => Ok(None),
        Some(JsonView::String(text)) => Ok(Some(text)),
        Some(_) => Err(DecodeErrorView::at(field, ErrorKind::WrongType)),
    }
}

/// A text that must be there.
pub open spec fn required_string(object: JsonView, field: Field) -> Result<
    Seq<char>,
    DecodeErrorView,
> {
    match object.member(field.name()) {
        None => Err(DecodeErrorView::at(field, ErrorKind::Missing)),
        Some(JsonView::String(text)) => Ok(text),
        Some(_) => Err(DecodeErrorView::at(field, ErrorKind::WrongType)),
    }
}

/// The integer that a value gives for a field with the given bounds. A
/// float is no integer, whatever its value, and a string is no number.
pub open spec fn integer_in(value: JsonView, low: int, high: int) -> Result<int, ErrorKind> {
    match value {
        JsonView::Number(number) => match number.as_int() {
            Some(i) => if low <= i <= high {
                Ok(i)
            } else {
                Err(ErrorKind::OutOfRange)
            },
            None => Err(ErrorKind::WrongType),
        },
        _ => Err(ErrorKind::WrongType),
    }
}

/// A 64-bit integer that may be left out.
pub open spec fn optional_i64(object: JsonView, field: Field) -> Result<
    Option<i64>,
    DecodeErrorView,
> {
    match present(object, field) {
        None => Ok(None),
        Some(value) => match integer_in(value, i64::MIN as int, i64::MAX as int) {
            Ok(i) => Ok(Some(i as i64)),
            Err(kind) => Err(DecodeErrorView::at(field, kind)),
        },
    }
}

/// A 64-bit integer that must be there.
pub open spec fn required_i64(object: JsonView, field: Field) -> Result<i64, DecodeErrorView> {
    match object.member(field.name()) {
        None => Err(DecodeErrorView::at(field, ErrorKind::Missing)),
        Some(value) => match integer_in(value, i64::MIN as int, i64::MAX as int) {
            Ok(i) => Ok(i as i64),
            Err(kind) => Err(DecodeErrorView::at(field, kind)),
        },
    }
}

/// An integer from 0 to 255 that may be left out.
pub open spec fn optional_u8(object: JsonView, field: Field) -> Result<
    Option<u8>,
    DecodeErrorView,
> {
    match present(object, field) {
        None => Ok(None),
        Some(value) => match integer_in(value, 0, u8::MAX as int) {
            Ok(i) => Ok(Some(i as u8)),
            Err(kind) => Err(DecodeErrorView::at(field, kind)),
        },
    }
}

/// A truth value that may be left out.
pub open spec fn optional_bool(object: JsonView, field: Field) -> Result<
    Option<bool>,
    DecodeErrorView,
> {
    match present(object, field) {
        None => Ok(None),
        Some(JsonView::Bool(b)) => Ok(Some(b)),
        Some(_) => Err(DecodeErrorView::at(field, ErrorKind::WrongType)),
    }
}

/// A number that must be there, integer or float, kept as it came.
pub open spec fn required_number(object: JsonView, field: Field) -> Result<
    Number,
    DecodeErrorView,
> {
    match object.member(field.name()) {
        None => Err(DecodeErrorView::at(field, ErrorKind::Missing)),
        Some(JsonView::Number(number)) => Ok(number),
        Some(_) => Err(DecodeErrorView::at(field, ErrorKind::WrongType)),
    }
}

/// Whether `i` is the position of the first failure in a list of
/// outcomes.
pub open spec fn first_failure<T>(outcomes: Seq<Result<T, DecodeErrorView>>, i: int) -> bool {
    &&& 0 <= i < outcomes.len()
    &&& outcomes[i] is Err
    &&& forall|j: int| 0 <= j < i ==> (#[trigger] outcomes[j]) is Ok
}

/// Whether every outcome of a list is a success.
pub open spec fn all_ok<T>(outcomes: Seq<Result<T, DecodeErrorView>>) -> bool {
    forall|i: int| 0 <= i < outcomes.len() ==> (#[trigger] outcomes[i]) is Ok
}

/// The outcome of a list, given the outcome of each item: the items in
/// order where all succeeded, else the first failure, under the position
/// of its item. No list is ever decoded in part.
pub open spec fn collected<T>(outcomes: Seq<Result<T, DecodeErrorView>>) -> Result<
    Seq<T>,
    DecodeErrorView,
> {
    if all_ok(outcomes) {
        Ok(outcomes.map_values(|outcome: Result<T, DecodeErrorView>| outcome->Ok_0))
    } else {
        let i = choose|i: int| first_failure(outcomes, i);
        Err(outcomes[i]->Err_0.under(Step::Index(i as usize)))
    }
}

/// A record that must be there, given what its value decodes to.
pub open spec fn required<T>(
    object: JsonView,
    field: Field,
    decode: spec_fn(JsonView) -> Result<T, DecodeErrorView>,
) -> Result<T, DecodeErrorView> {
    match object.member(field.name()) {
        None => Err(DecodeErrorView::at(field, ErrorKind::Missing)),
        Some(value) => match decode(value) {
            Ok(record) => Ok(record),
            Err(e) => Err(e.under(Step::Field(field))),
        },
    }
}

/// The status that a document stands for.
pub open spec fn status_of(value: JsonView) -> Result<StatusView, DecodeErrorView> {
    if !(value is Object) {
        Err(DecodeErrorView::here(ErrorKind::WrongType))
    } else {
        let status = required_string(value, Field::Status);
        if status is Err {
            Err(status->Err_0)
        } else {
            Ok(
                StatusView {
                    status: status->Ok_0,
                },
            )
        }
    }
}

/// The timestamp that a value stands for.
pub open spec fn timestamp_of(value: JsonView) -> Result<Timestamp, DecodeErrorView> {
    if !(value is Object) {
        Err(DecodeErrorView::here(ErrorKind::WrongType))
    } else {
        let seconds = required_i64(value, Field::Seconds);
        let nanoseconds = required_i64(value, Field::Nanoseconds);
        if seconds is Err {
            Err(seconds->Err_0)
        } else if nanoseconds is Err {
            Err(nanoseconds->Err_0)
        } else {
            Ok(
                Timestamp {
                    seconds: seconds->Ok_0,
                    nanoseconds: nanoseconds->Ok_0,
                },
            )
        }
    }
}

/// The timestamp under a field, which must be there.
pub open spec fn required_timestamp(object: JsonView, field: Field) -> Result<
    Timestamp,
    DecodeErrorView,
> {
    required(object, field, |value: JsonView| timestamp_of(value))
}

/// The detail step that a value stands for.
pub open spec fn detail_step_of(value: JsonView) -> Result<DetailStepView, DecodeErrorView> {
    if !(value is Object) {
        Err(DecodeErrorView::here(ErrorKind::WrongType))
    } else {
        let villagers = optional_string(value, Field::Villagers);
        let builders = optional_string(value, Field::Builders);
        let food = optional_string(value, Field::Food);
        let wood = optional_string(value, Field::Wood);
        let stone = optional_string(value, Field::Stone);
        let gold = optional_string(value, Field::Gold);
        let time = optional_string(value, Field::Time);
        let description = optional_string(value, Field::Description);
        if villagers is Err {
            Err(villagers->Err_0)
        } else if builders is Err {
            Err(builders->Err_0)
        } else if food is Err {
            Err(food->Err_0)
        } else if wood is Err {
            Err(wood->Err_0)
        } else if stone is Err {
            Err(stone->Err_0)
        } else if gold is Err {
            Err(gold->Err_0)
        } else if time is Err {
            Err(time->Err_0)
        } else if description is Err {
            Err(description->Err_0)
        } else {
            Ok(
                DetailStepView {
                    villagers: villagers->Ok_0,
                    builders: builders->Ok_0,
                    food: food->Ok_0,
                    wood: wood->Ok_0,
                    stone: stone->Ok_0,
                    gold: gold->Ok_0,
                    time: time->Ok_0,
                    description: description->Ok_0,
                },
            )
        }
    }
}

/// What each item of a list stands for as a detail step.
pub open spec fn detail_step_outcomes(items: Seq<JsonView>) -> Seq<
    Result<DetailStepView, DecodeErrorView>,
> {
    items.map_values(|item: JsonView| detail_step_of(item))
}

/// The detail steps that a value stands for, which must be an array of
/// them.
pub open spec fn detail_steps_of(value: JsonView) -> Result<Seq<DetailStepView>, DecodeErrorView> {
    match value {
        JsonView::Array(items) => collected(detail_step_outcomes(items)),
        _ => Err(DecodeErrorView::here(ErrorKind::WrongType)),
    }
}

/// The detail steps under a field, which may be left out.
pub open spec fn optional_detail_steps(object: JsonView, field: Field) -> Result<
    Option<Seq<DetailStepView>>,
    DecodeErrorView,
> {
    match present(object, field) {
        None => Ok(None),
        Some(value) => match detail_steps_of(value) {
            Ok(steps) => Ok(Some(steps)),
            Err(e) => Err(e.under(Step::Field(field))),
        },
    }
}

/// The phase that a value stands for.
pub open spec fn build_step_of(value: JsonView) -> Result<BuildOrderStepView, DecodeErrorView> {
    if !(value is Object) {
        Err(DecodeErrorView::here(ErrorKind::WrongType))
    } else {
        let gameplan = optional_string(value, Field::Gameplan);
        let age = optional_u8(value, Field::Age);
        let step_type = optional_string(value, Field::StepType);
        let steps = optional_detail_steps(value, Field::Steps);
        if gameplan is Err {
            Err(gameplan->Err_0)
        } else if age is Err {
            Err(age->Err_0)
        } else if step_type is Err {
            Err(step_type->Err_0)
        } else if steps is Err {
            Err(steps->Err_0)
        } else {
            Ok(
                BuildOrderStepView {
                    gameplan: gameplan->Ok_0,
                    age: age->Ok_0,
                    step_type: step_type->Ok_0,
                    steps: steps->Ok_0,
                },
            )
        }
    }
}

/// What each item of a list stands for as a phase.
pub open spec fn build_step_outcomes(items: Seq<JsonView>) -> Seq<
    Result<BuildOrderStepView, DecodeErrorView>,
> {
    items.map_values(|item: JsonView| build_step_of(item))
}

/// The phases that a value stands for, which must be an array of them.
pub open spec fn build_steps_of(value: JsonView) -> Result<
    Seq<BuildOrderStepView>,
    DecodeErrorView,
> {
    match value {
        JsonView::Array(items) => collected(build_step_outcomes(items)),
        _ => Err(DecodeErrorView::here(ErrorKind::WrongType)),
    }
}

/// The phases under a field, which must be there.
pub open spec fn required_build_steps(object: JsonView, field: Field) -> Result<
    Seq<BuildOrderStepView>,
    DecodeErrorView,
> {
    required(object, field, |value: JsonView| build_steps_of(value))
}

/// The build order that a document stands for.
pub open spec fn build_order_of(value: JsonView) -> Result<BuildOrderView, DecodeErrorView> {
    if !(value is Object) {
        Err(DecodeErrorView::here(ErrorKind::WrongType))
    } else {
        let id = optional_string(value, Field::Id);
        let title = optional_string(value, Field::Title);
        let description = optional_string(value, Field::Description);
        let video = optional_string(value, Field::Video);
        let author = optional_string(value, Field::Author);
        let author_uid = required_string(value, Field::AuthorUid);
        let civ = optional_string(value, Field::Civ);
        let comments = optional_i64(value, Field::Comments);
        let likes = optional_i64(value, Field::Likes);
        let map = optional_string(value, Field::GameMap);
        let season = optional_string(value, Field::Season);
        let score = required_number(value, Field::Score);
        let score_all_time = required_number(value, Field::ScoreAllTime);
        let sort_title = required_string(value, Field::SortTitle);
        let steps = required_build_steps(value, Field::Steps);
        let strategy = optional_string(value, Field::Strategy);
        let time_created = required_timestamp(value, Field::TimeCreated);
        let time_updated = required_timestamp(value, Field::TimeUpdated);
        let upvotes = optional_i64(value, Field::Upvotes);
        let views = required_i64(value, Field::Views);
        let is_draft = optional_bool(value, Field::IsDraft);
        if id is Err {
            Err(id->Err_0)
        } else if title is Err {
            Err(title->Err_0)
        } else if description is Err {
            Err(description->Err_0)
        } else if video is Err {
            Err(video->Err_0)
        } else if author is Err {
            Err(author->Err_0)
        } else if author_uid is Err {
            Err(author_uid->Err_0)
        } else if civ is Err {
            Err(civ->Err_0)
        } else if comments is Err {
            Err(comments->Err_0)
        } else if likes is Err {
            Err(likes->Err_0)
        } else if map is Err {
            Err(map->Err_0)
        } else if season is Err {
            Err(season->Err_0)
        } else if score is Err {
            Err(score->Err_0)
        } else if score_all_time is Err {
            Err(score_all_time->Err_0)
        } else if sort_title is Err {
            Err(sort_title->Err_0)
        } else if steps is Err {
            Err(steps->Err_0)
        } else if strategy is Err {
            Err(strategy->Err_0)
        } else if time_created is Err {
            Err(time_created->Err_0)
        } else if time_updated is Err {
            Err(time_updated->Err_0)
        } else if upvotes is Err {
            Err(upvotes->Err_0)
        } else if views is Err {
            Err(views->Err_0)
        } else if is_draft is Err {
            Err(is_draft->Err_0)
        } else {
            Ok(
                BuildOrderView {
                    id: id->Ok_0,
                    title: title->Ok_0,
                    description: description->Ok_0,
                    video: video->Ok_0,
                    author: author->Ok_0,
                    author_uid: author_uid->Ok_0,
                    civ: civ->Ok_0,
                    comments: comments->Ok_0,
                    likes: likes->Ok_0,
                    map: map->Ok_0,
                    season: season->Ok_0,
                    score: score->Ok_0,
                    score_all_time: score_all_time->Ok_0,
                    sort_title: sort_title->Ok_0,
                    steps: steps->Ok_0,
                    strategy: strategy->Ok_0,
                    time_created: time_created->Ok_0,
                    time_updated: time_updated->Ok_0,
                    upvotes: upvotes->Ok_0,
                    views: views->Ok_0,
                    is_draft: is_draft->Ok_0,
                },
            )
        }
    }
}

/// What each item of a list stands for as a build order.
pub open spec fn build_order_outcomes(items: Seq<JsonView>) -> Seq<
    Result<BuildOrderView, DecodeErrorView>,
> {
    items.map_values(|item: JsonView| build_order_of(item))
}

/// The build orders that a document stands for, which must be an array
/// of them.
pub open spec fn build_list_of(value: JsonView) -> Result<Seq<BuildOrderView>, DecodeErrorView> {
    match value {
        JsonView::Array(items) => collected(build_order_outcomes(items)),
        _ => Err(DecodeErrorView::here(ErrorKind::WrongType)),
    }
}

/// The only first failure of a list is the one at the least position.
pub proof fn lemma_first_failure_is_unique<T>(
    outcomes: Seq<Result<T, DecodeErrorView>>,
    i: int,
    j: int,
)
    requires
        first_failure(outcomes, i),
        first_failure(outcomes, j),
    ensures
        i == j,
{
    if i < j {
        assert(outcomes[i] is Ok);
    }
    if j < i {
        assert(outcomes[j] is Ok);
    }
}

/// A list with a first failure at `i` fails with that failure, under
/// `i`.
pub proof fn lemma_collected_failure<T>(outcomes: Seq<Result<T, DecodeErrorView>>, i: int)
    requires
        first_failure(outcomes, i),
    ensures
        collected(outcomes) == Err::<Seq<T>, DecodeErrorView>(
            outcomes[i]->Err_0.under(Step::Index(i as usize)),
        ),
{
    let j = choose|j: int| first_failure(outcomes, j);
    lemma_first_failure_is_unique(outcomes, i, j);
}

/// A list decodes exactly when each of its items does, and then to the
/// items' records, as many as there are items and in their order.
pub proof fn lemma_collected_keeps_order<T>(outcomes: Seq<Result<T, DecodeErrorView>>)
    ensures
        collected(outcomes) is Ok <==> all_ok(outcomes),
        all_ok(outcomes) ==> collected(outcomes)->Ok_0.len() == outcomes.len(),
        all_ok(outcomes) ==> forall|i: int|
            0 <= i < outcomes.len() ==> outcomes[i] == Ok::<T, DecodeErrorView>(
                #[trigger] collected(outcomes)->Ok_0[i],
            ),
{
}

/// A list of build orders decodes exactly when each item does, and then
/// to as many build orders as the array has items, each at the position
/// of its item.
pub proof fn lemma_build_list_keeps_order(items: Seq<JsonView>)
    ensures
        build_list_of(JsonView::Array(items)) is Ok <==> forall|i: int|
            0 <= i < items.len() ==> (#[trigger] build_order_of(items[i])) is Ok,
        build_list_of(JsonView::Array(items)) matches Ok(builds) ==> {
            &&& builds.len() == items.len()
            &&& forall|i: int|
                0 <= i < items.len() ==> build_order_of(items[i]) == Ok::<
                    BuildOrderView,
                    DecodeErrorView,
                >(#[trigger] builds[i])
        },
{
    let outcomes = build_order_outcomes(items);
    lemma_collected_keeps_order(outcomes);
    if forall|i: int| 0 <= i < items.len() ==> (#[trigger] build_order_of(items[i])) is Ok {
        assert forall|i: int| 0 <= i < outcomes.len() implies (#[trigger] outcomes[i]) is Ok by {
            assert(build_order_of(items[i]) is Ok);
        }
    }
    if all_ok(outcomes) {
        assert forall|i: int| 0 <= i < items.len() implies (#[trigger] build_order_of(
            items[i],
        )) is Ok by {
            assert(outcomes[i] is Ok);
        }
    }
}

/// Whether a build order may come without the field.
pub open spec fn optional_in_build_order(field: Field) -> bool {
    ||| field == Field::Id
    ||| field == Field::Title
    ||| field == Field::Description
    ||| field == Field::Video
    ||| field == Field::Author
    ||| field == Field::Civ
    ||| field == Field::Comments
    ||| field == Field::Likes
    ||| field == Field::GameMap
    ||| field == Field::Season
    ||| field == Field::Strategy
    ||| field == Field::Upvotes
    ||| field == Field::IsDraft
}

/// Whether a build order must come with the field.
pub open spec fn mandatory_in_build_order(field: Field) -> bool {
    ||| field == Field::AuthorUid
    ||| field == Field::Score
    ||| field == Field::ScoreAllTime
    ||| field == Field::SortTitle
    ||| field == Field::Steps
    ||| field == Field::TimeCreated
    ||| field == Field::TimeUpdated
    ||| field == Field::Views
}

/// An object that holds every mandatory field of a build order, each
/// with a value of its type, and none of the optional ones, decodes to a
/// build order that has the mandatory values as given and every optional
/// field absent.
pub proof fn lemma_mandatory_fields_suffice(value: JsonView)
    requires
        value is Object,
        forall|field: Field| #[trigger]
            optional_in_build_order(field) ==> value.member(field.name()).is_none(),
        required_string(value, Field::AuthorUid) is Ok,
        required_number(value, Field::Score) is Ok,
        required_number(value, Field::ScoreAllTime) is Ok,
        required_string(value, Field::SortTitle) is Ok,
        required_build_steps(value, Field::Steps) is Ok,
        required_timestamp(value, Field::TimeCreated) is Ok,
        required_timestamp(value, Field::TimeUpdated) is Ok,
        required_i64(value, Field::Views) is Ok,
    ensures
        build_order_of(value) is Ok,
        ({
            let build = build_order_of(value)->Ok_0;
            &&& build.id.is_none()
            &&& build.title.is_none()
            &&& build.description.is_none()
            &&& build.video.is_none()
            &&& build.author.is_none()
            &&& build.author_uid == required_string(value, Field::AuthorUid)->Ok_0
            &&& build.civ.is_none()
            &&& build.comments.is_none()
            &&& build.likes.is_none()
            &&& build.map.is_none()
            &&& build.season.is_none()
            &&& build.score == required_number(value, Field::Score)->Ok_0
            &&& build.score_all_time == required_number(value, Field::ScoreAllTime)->Ok_0
            &&& build.sort_title == required_string(value, Field::SortTitle)->Ok_0
            &&& build.steps == required_build_steps(value, Field::Steps)->Ok_0
            &&& build.strategy.is_none()
            &&& build.time_created == required_timestamp(value, Field::TimeCreated)->Ok_0
            &&& build.time_updated == required_timestamp(value, Field::TimeUpdated)->Ok_0
            &&& build.upvotes.is_none()
            &&& build.views == required_i64(value, Field::Views)->Ok_0
            &&& build.is_draft.is_none()
        }),
{
    assert(optional_in_build_order(Field::Id));
    assert(optional_in_build_order(Field::Title));
    assert(optional_in_build_order(Field::Description));
    assert(optional_in_build_order(Field::Video));
    assert(optional_in_build_order(Field::Author));
    assert(optional_in_build_order(Field::Civ));
    assert(optional_in_build_order(Field::Comments));
    assert(optional_in_build_order(Field::Likes));
    assert(optional_in_build_order(Field::GameMap));
    assert(optional_in_build_order(Field::Season));
    assert(optional_in_build_order(Field::Strategy));
    assert(optional_in_build_order(Field::Upvotes));
    assert(optional_in_build_order(Field::IsDraft));
}

/// A document that lacks a mandatory field of a build order does not
/// decode; no default stands in for the field.
pub proof fn lemma_mandatory_field_is_needed(value: JsonView, field: Field)
    requires
        mandatory_in_build_order(field),
        value.member(field.name()).is_none(),
    ensures
        build_order_of(value) is Err,
{
}

/// A document that lacks the author's identifier, and is otherwise fine
/// up to that field, fails as missing that very field.
pub proof fn lemma_missing_author_uid(value: JsonView)
    requires
        value is Object,
        value.member(Field::AuthorUid.name()).is_none(),
        optional_string(value, Field::Id) is Ok,
        optional_string(value, Field::Title) is Ok,
        optional_string(value, Field::Description) is Ok,
        optional_string(value, Field::Video) is Ok,
        optional_string(value, Field::Author) is Ok,
    ensures
        build_order_of(value) == Err::<BuildOrderView, DecodeErrorView>(
            DecodeErrorView::at(Field::AuthorUid, ErrorKind::Missing),
        ),
{
}

/// A member whose name is no field's name makes no difference to what
/// an object stands for.
pub proof fn lemma_unknown_member_is_passed_over(
    members: Seq<(Seq<char>, JsonView)>,
    name: Seq<char>,
    extra: JsonView,
)
    requires
        forall|field: Field| #[trigger] field.name() != name,
    ensures
        ({
            let without = JsonView::Object(members);
            let with = JsonView::Object(members.push((name, extra)));
            &&& status_of(with) == status_of(without)
            &&& timestamp_of(with) == timestamp_of(without)
            &&& detail_step_of(with) == detail_step_of(without)
            &&& build_step_of(with) == build_step_of(without)
            &&& build_order_of(with) == build_order_of(without)
        }),
{
    let without = JsonView::Object(members);
    let with = JsonView::Object(members.push((name, extra)));
    assert forall|field: Field| with.member(#[trigger] field.name()) == without.member(
        field.name(),
    ) by {
        lemma_member_after_push(members, name, extra, field.name());
    }
}

/// A build order keeps its phases: as many as the `steps` array has
/// items, each the phase that its item stands for.
pub proof fn lemma_build_order_keeps_steps(value: JsonView)
    requires
        build_order_of(value) is Ok,
    ensures
        value.member(Field::Steps.name()) matches Some(JsonView::Array(items)) && {
            let steps = build_order_of(value)->Ok_0.steps;
            &&& steps.len() == items.len()
            &&& forall|i: int|
                0 <= i < items.len() ==> build_step_of(items[i]) == Ok::<
                    BuildOrderStepView,
                    DecodeErrorView,
                >(#[trigger] steps[i])
        },
{
    let steps = required_build_steps(value, Field::Steps);
    assert(steps is Ok);
    let items = value.member(Field::Steps.name())->Some_0->Array_0;
    lemma_collected_keeps_order(build_step_outcomes(items));
}

/// A phase keeps its detail steps: where the `steps` member is an
/// array, as many as the array has items, each the detail step that its
/// item stands for.
pub proof fn lemma_build_step_keeps_steps(value: JsonView)
    requires
        build_step_of(value) is Ok,
    ensures
        match present(value, Field::Steps) {
            None => build_step_of(value)->Ok_0.steps.is_none(),
            Some(member) => member matches JsonView::Array(items) && build_step_of(
                value,
            )->Ok_0.steps matches Some(steps) && {
                &&& steps.len() == items.len()
                &&& forall|i: int|
                    0 <= i < items.len() ==> detail_step_of(items[i]) == Ok::<
                        DetailStepView,
                        DecodeErrorView,
                    >(#[trigger] steps[i])
            },
        },
{
    if let Some(member) = present(value, Field::Steps) {
        assert(optional_detail_steps(value, Field::Steps) is Ok);
        assert(detail_steps_of(member) is Ok);
        let items = member->Array_0;
        lemma_collected_keeps_order(detail_step_outcomes(items));
    }
}

/// A detail step keeps each text as it was given, character for
/// character, and takes nothing but a text: a number in the place of one
/// is not read as its digits, it fails the detail step.
pub proof fn lemma_detail_step_keeps_texts(value: JsonView)
    requires
        value is Object,
    ensures
        detail_step_of(value) matches Ok(step) ==> {
            &&& step.villagers == optional_string(value, Field::Villagers)->Ok_0
            &&& step.builders == optional_string(value, Field::Builders)->Ok_0
            &&& step.food == optional_string(value, Field::Food)->Ok_0
            &&& step.wood == optional_string(value, Field::Wood)->Ok_0
            &&& step.stone == optional_string(value, Field::Stone)->Ok_0
            &&& step.gold == optional_string(value, Field::Gold)->Ok_0
            &&& step.time == optional_string(value, Field::Time)->Ok_0
            &&& step.description == optional_string(value, Field::Description)->Ok_0
        },
        forall|field: Field|
            value.member(field.name()).is_some() && value.member(field.name())->Some_0 is String
                ==> #[trigger] optional_string(value, field) == Ok::<
                Option<Seq<char>>,
                DecodeErrorView,
            >(Some(value.member(field.name())->Some_0->String_0)),
        forall|field: Field| #[trigger]
            in_detail_step(field) && value.member(field.name()).is_some() && value.member(
                field.name(),
            )->Some_0 is Number ==> detail_step_of(value) is Err,
{
}

/// Whether a detail step has the field.
pub open spec fn in_detail_step(field: Field) -> bool {
    ||| field == Field::Villagers
    ||| field == Field::Builders
    ||| field == Field::Food
    ||| field == Field::Wood
    ||| field == Field::Stone
    ||| field == Field::Gold
    ||| field == Field::Time
    ||| field == Field::Description
}

} // verus!
