//! The records that the server answers with, and their models.
//!
//! A record holds a mandatory field as its value and an optional one as
//! an `Option`, which is `None` where the server left the field out or
//! sent `null`.

use vstd::prelude::*;
use crate::json::Number;

verus! {

/// An optional text, by its characters.
pub open spec fn text_view(text: Option<String>) -> Option<Seq<char>> {
    match text {
        Some(s) => Some(s@),
        None => None,
    }
}

/// The server's answer to a health check.
#[derive(Debug, PartialEq, Eq)]
pub struct Status {
    /// The state that the server reports of itself.
    pub status: String,
}

/// The model of a `Status`.
pub struct StatusView {
    pub status: Seq<char>,
}

impl View for Status {
    type V = StatusView;

    open spec fn view(&self) -> StatusView {
        StatusView {
            status: self.status@,
        }
    }
}

/// A point in time, in UTC.
#[derive(Debug, Clone, Copy, PartialEq, Eq, Structural)]
pub struct Timestamp {
    /// Seconds since the Unix epoch.
    pub seconds: i64,
    /// The nanoseconds beyond the last full second.
    pub nanoseconds: i64,
}

/// One action of a build order. The counts are texts: authors write ranges
/// and symbols into them.
#[derive(Debug, PartialEq, Eq)]
pub struct DetailStep {
    /// The number of villagers.
    pub villagers: Option<String>,
    /// The number of builders.
    pub builders: Option<String>,
    /// The villagers on food.
    pub food: Option<String>,
    /// The villagers on wood.
    pub wood: Option<String>,
    /// The villagers on stone.
    pub stone: Option<String>,
    /// The villagers on gold.
    pub gold: Option<String>,
    /// The time in the game, as the author wrote it.
    pub time: Option<String>,
    /// What to do, possibly with markup and references to images.
    pub description: Option<String>,
}

/// The model of a `DetailStep`.
pub struct DetailStepView {
    pub villagers: Option<Seq<char>>,
    pub builders: Option<Seq<char>>,
    pub food: Option<Seq<char>>,
    pub wood: Option<Seq<char>>,
    pub stone: Option<Seq<char>>,
    pub gold: Option<Seq<char>>,
    pub time: Option<Seq<char>>,
    pub description: Option<Seq<char>>,
}

impl View for DetailStep {
    type V = DetailStepView;

    open spec fn view(&self) -> DetailStepView {
        DetailStepView {
            villagers: text_view(self.villagers),
            builders: text_view(self.builders),
            food: text_view(self.food),
            wood: text_view(self.wood),
            stone: text_view(self.stone),
            gold: text_view(self.gold),
            time: text_view(self.time),
            description: text_view(self.description),
        }
    }
}

/// A list of detail steps, each by its model.
pub open spec fn detail_steps_view(steps: Seq<DetailStep>) -> Seq<DetailStepView> {
    steps.map_values(|s: DetailStep| s@)
}

/// One phase of a build order.
#[derive(Debug, PartialEq, Eq)]
pub struct BuildOrderStep {
    /// A short label for what the phase is after.
    pub gameplan: Option<String>,
    /// The age: 1 to 4, or 0 where the build order does not use ages.
    pub age: Option<u8>,
    /// Whether the phase is spent in an age or in reaching the next; the
    /// server's vocabulary is kept as it comes.
    pub step_type: Option<String>,
    /// The single actions of the phase, in order.
    pub steps: Option<Vec<DetailStep>>,
}

/// The model of a `BuildOrderStep`.
pub struct BuildOrderStepView {
    pub gameplan: Option<Seq<char>>,
    pub age: Option<u8>,
    pub step_type: Option<Seq<char>>,
    pub steps: Option<Seq<DetailStepView>>,
}

impl View for BuildOrderStep {
    type V = BuildOrderStepView;

    open spec fn view(&self) -> BuildOrderStepView {
        BuildOrderStepView {
            gameplan: text_view(self.gameplan),
            age: self.age,
            step_type: text_view(self.step_type),
            steps: match self.steps {
                Some(steps) => Some(detail_steps_view(steps@)),
                None => None,
            },
        }
    }
}

/// A list of phases, each by its model.
pub open spec fn build_steps_view(steps: Seq<BuildOrderStep>) -> Seq<BuildOrderStepView> {
    steps.map_values(|s: BuildOrderStep| s@)
}

/// A build order as the server describes it. The two scores are JSON
/// numbers as they came.
#[derive(Debug, PartialEq, Eq)]
pub struct BuildOrder {
    /// The identifier that the server gave the build order.
    pub id: Option<String>,
    /// The title.
    pub title: Option<String>,
    /// The description.
    pub description: Option<String>,
    /// The address of a video that shows the build order.
    pub video: Option<String>,
    /// The author's name.
    pub author: Option<String>,
    /// The author's identifier.
    pub author_uid: String,
    /// The code of the civilization that the build order is for.
    pub civ: Option<String>,
    /// The number of comments.
    pub comments: Option<i64>,
    /// The number of likes.
    pub likes: Option<i64>,
    /// The map that the build order is meant for.
    pub map: Option<String>,
    /// The ranked season that the build order was written for.
    pub season: Option<String>,
    /// The current score, which the server recomputes over time.
    pub score: Number,
    /// The score summed over all time.
    pub score_all_time: Number,
    /// The title in the form that the server sorts by.
    pub sort_title: String,
    /// The phases of the build order, in order.
    pub steps: Vec<BuildOrderStep>,
    /// The strategic aim.
    pub strategy: Option<String>,
    /// When the build order was created.
    pub time_created: Timestamp,
    /// When the build order was last changed.
    pub time_updated: Timestamp,
    /// The number of upvotes.
    pub upvotes: Option<i64>,
    /// The number of views.
    pub views: i64,
    /// Whether the build order is an unpublished draft; absent where the
    /// server does not say.
    pub is_draft: Option<bool>,
}

/// The model of a `BuildOrder`.
pub struct BuildOrderView {
    pub id: Option<Seq<char>>,
    pub title: Option<Seq<char>>,
    pub description: Option<Seq<char>>,
    pub video: Option<Seq<char>>,
    pub author: Option<Seq<char>>,
    pub author_uid: Seq<char>,
    pub civ: Option<Seq<char>>,
    pub comments: Option<i64>,
    pub likes: Option<i64>,
    pub map: Option<Seq<char>>,
    pub season: Option<Seq<char>>,
    pub score: Number,
    pub score_all_time: Number,
    pub sort_title: Seq<char>,
    pub steps: Seq<BuildOrderStepView>,
    pub strategy: Option<Seq<char>>,
    pub time_created: Timestamp,
    pub time_updated: Timestamp,
    pub upvotes: Option<i64>,
    pub views: i64,
    pub is_draft: Option<bool>,
}

impl View for BuildOrder {
    type V = BuildOrderView;

    open spec fn view(&self) -> BuildOrderView {
        BuildOrderView {
            id: text_view(self.id),
            title: text_view(self.title),
            description: text_view(self.description),
            video: text_view(self.video),
            author: text_view(self.author),
            author_uid: self.author_uid@,
            civ: text_view(self.civ),
            comments: self.comments,
            likes: self.likes,
            map: text_view(self.map),
            season: text_view(self.season),
            score: self.score,
            score_all_time: self.score_all_time,
            sort_title: self.sort_title@,
            steps: build_steps_view(self.steps@),
            strategy: text_view(self.strategy),
            time_created: self.time_created,
            time_updated: self.time_updated,
            upvotes: self.upvotes,
            views: self.views,
            is_draft: self.is_draft,
        }
    }
}

/// A list of build orders, each by its model.
pub open spec fn build_orders_view(builds: Seq<BuildOrder>) -> Seq<BuildOrderView> {
    builds.map_values(|b: BuildOrder| b@)
}

/// The build orders of one answer.
pub type BuildOrders = Vec<BuildOrder>;

} // verus!
