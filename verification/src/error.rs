//! Why a response could not be decoded, and where in it.

use vstd::prelude::*;

verus! {

/// A field of one of the records, named as the record names it. The
/// server's own spelling of it is `name`.
#[derive(Debug, Clone, Copy, PartialEq, Eq, Structural)]
pub enum Field {
    Status,
    Id,
    Title,
    Description,
    Video,
    Author,
    AuthorUid,
    Civ,
    Comments,
    Likes,
    GameMap,
    Season,
    Score,
    ScoreAllTime,
    SortTitle,
    Steps,
    Strategy,
    TimeCreated,
    TimeUpdated,
    Upvotes,
    Views,
    IsDraft,
    Seconds,
    Nanoseconds,
    Gameplan,
    Age,
    StepType,
    Villagers,
    Builders,
    Food,
    Wood,
    Stone,
    Gold,
    Time,
}

impl Field {
    /// The key under which the server sends the field.
    pub open spec fn name(self) -> Seq<char> {
        match self {
            Field::Status => "status"@,
            Field::Id => "id"@,
            Field::Title => "title"@,
            Field::Description => "description"@,
            Field::Video => "video"@,
            Field::Author => "author"@,
            Field::AuthorUid => "authorUid"@,
            Field::Civ => "civ"@,
            Field::Comments => "comments"@,
            Field::Likes => "likes"@,
            Field::GameMap => "map"@,
            Field::Season => "season"@,
            Field::Score => "score"@,
            Field::ScoreAllTime => "scoreAllTime"@,
            Field::SortTitle => "sortTitle"@,
            Field::Steps => "steps"@,
            Field::Strategy => "strategy"@,
            Field::TimeCreated => "timeCreated"@,
            Field::TimeUpdated => "timeUpdated"@,
            Field::Upvotes => "upvotes"@,
            Field::Views => "views"@,
            Field::IsDraft => "isDraft"@,
            Field::Seconds => "_seconds"@,
            Field::Nanoseconds => "_nanoseconds"@,
            Field::Gameplan => "gameplan"@,
            Field::Age => "age"@,
            Field::StepType => "type"@,
            Field::Villagers => "villagers"@,
            Field::Builders => "builders"@,
            Field::Food => "food"@,
            Field::Wood => "wood"@,
            Field::Stone => "stone"@,
            Field::Gold => "gold"@,
            Field::Time => "time"@,
        }
    }

    /// The key as a string slice.
    pub fn as_str(&self) -> (s: &'static str)
        ensures
            s@ == self.name(),
    {
        match self {
            Field::Status => "status",
            Field::Id => "id",
            Field::Title => "title",
            Field::Description => "description",
            Field::Video => "video",
            Field::Author => "author",
            Field::AuthorUid => "authorUid",
            Field::Civ => "civ",
            Field::Comments => "comments",
            Field::Likes => "likes",
            Field::GameMap => "map",
            Field::Season => "season",
            Field::Score => "score",
            Field::ScoreAllTime => "scoreAllTime",
            Field::SortTitle => "sortTitle",
            Field::Steps => "steps",
            Field::Strategy => "strategy",
            Field::TimeCreated => "timeCreated",
            Field::TimeUpdated => "timeUpdated",
            Field::Upvotes => "upvotes",
            Field::Views => "views",
            Field::IsDraft => "isDraft",
            Field::Seconds => "_seconds",
            Field::Nanoseconds => "_nanoseconds",
            Field::Gameplan => "gameplan",
            Field::Age => "age",
            Field::StepType => "type",
            Field::Villagers => "villagers",
            Field::Builders => "builders",
            Field::Food => "food",
            Field::Wood => "wood",
            Field::Stone => "stone",
            Field::Gold => "gold",
            Field::Time => "time",
        }
    }
}

/// One step on the way from the root of a document to a value in it.
#[derive(Debug, Clone, Copy, PartialEq, Eq, Structural)]
pub enum Step {
    /// Into the member that holds this field.
    Field(Field),
    /// Into the item at this position of an array.
    Index(usize),
}

/// What was wrong.
#[derive(Debug, Clone, Copy, PartialEq, Eq, Structural)]
pub enum ErrorKind {
    /// The body is not a JSON document; line and column say where it
    /// stopped being one.
    Syntax { line: usize, column: usize },
    /// A mandatory field is absent.
    Missing,
    /// The value is not of the JSON type that the schema asks for.
    WrongType,
    /// The value is an integer that the field cannot hold.
    OutOfRange,
}

/// A decoding failure: what was wrong, and the path from the root of the
/// document to the value that was wrong, outermost step first.
#[derive(Debug, PartialEq, Eq)]
pub struct DecodeError {
    pub kind: ErrorKind,
    pub path: Vec<Step>,
}

/// The model of a decoding failure.
pub struct DecodeErrorView {
    pub kind: ErrorKind,
    pub path: Seq<Step>,
}

impl View for DecodeError {
    type V = DecodeErrorView;

    open spec fn view(&self) -> DecodeErrorView {
        DecodeErrorView { kind: self.kind, path: self.path@ }
    }
}

impl DecodeErrorView {
    /// A failure at the very value that was handed in.
    pub open spec fn here(kind: ErrorKind) -> DecodeErrorView {
        DecodeErrorView { kind, path: Seq::empty() }
    }

    /// A failure at the given field of the value that was handed in.
    pub open spec fn at(field: Field, kind: ErrorKind) -> DecodeErrorView {
        DecodeErrorView { kind, path: seq![Step::Field(field)] }
    }

    /// The same failure, seen from one step further out.
    pub open spec fn under(self, step: Step) -> DecodeErrorView {
        DecodeErrorView { kind: self.kind, path: seq![step] + self.path }
    }
}

impl DecodeError {
    /// A failure at the very value that was handed in.
    pub fn here(kind: ErrorKind) -> (e: DecodeError)
        ensures
            e@ == DecodeErrorView::here(kind),
    {
        DecodeError { kind, path: Vec::new() }
    }

    /// A failure at the given field of the value that was handed in.
    pub fn at(field: Field, kind: ErrorKind) -> (e: DecodeError)
        ensures
            e@ == DecodeErrorView::at(field, kind),
    {
        let mut path: Vec<Step> = Vec::new();
        path.push(Step::Field(field));
        assert(path@ =~= seq![Step::Field(field)]);
        DecodeError { kind, path }
    }

    /// The same failure, seen from one step further out.
    pub fn under(self, step: Step) -> (e: DecodeError)
        ensures
            e@ == self@.under(step),
    {
        let DecodeError { kind, path } = self;
        let mut path = path;
        path.insert(0, step);
        assert(path@ =~= seq![step] + self.path@);
        DecodeError { kind, path }
    }
}

/// No two fields share a name.
pub proof fn lemma_field_name_is_injective(a: Field, b: Field)
    requires
        a.name() == b.name(),
    ensures
        a == b,
{
    reveal_strlit("status");
    reveal_strlit("id");
    reveal_strlit("title");
    reveal_strlit("description");
    reveal_strlit("video");
    reveal_strlit("author");
    reveal_strlit("authorUid");
    reveal_strlit("civ");
    reveal_strlit("comments");
    reveal_strlit("likes");
    reveal_strlit("map");
    reveal_strlit("season");
    reveal_strlit("score");
    reveal_strlit("scoreAllTime");
    reveal_strlit("sortTitle");
    reveal_strlit("steps");
    reveal_strlit("strategy");
    reveal_strlit("timeCreated");
    reveal_strlit("timeUpdated");
    reveal_strlit("upvotes");
    reveal_strlit("views");
    reveal_strlit("isDraft");
    reveal_strlit("_seconds");
    reveal_strlit("_nanoseconds");
    reveal_strlit("gameplan");
    reveal_strlit("age");
    reveal_strlit("type");
    reveal_strlit("villagers");
    reveal_strlit("builders");
    reveal_strlit("food");
    reveal_strlit("wood");
    reveal_strlit("stone");
    reveal_strlit("gold");
    reveal_strlit("time");
    if a != b {
        let x = a.name();
        let y = b.name();
        assert(x.len() != y.len() || x[0] != y[0] || x[1] != y[1] || x[2] != y[2] || x[3] != y[3]
            || x[4] != y[4]);
    }
}

} // verus!
