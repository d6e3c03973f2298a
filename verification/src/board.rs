//! The question board: categories of answers, each answer carrying a task
//! payload, a point value (mutable by the admin, e.g. for wagers), a
//! display-only "double" flag, and the append-only history of grading
//! attempts. Each executable type has a ghost model used by the contracts.

use vstd::prelude::*;

verus! {

/// What a revealed answer asks the contestants: a piece of text, or a
/// reference (URL) to a picture.
#[derive(Clone, Debug)]
pub enum Task {
    Text(String),
    Picture(String),
}

/// Ghost model of a [`Task`]: the payload as a character sequence.
#[verifier::ext_equal]
pub ghost enum TaskModel {
    Text(Seq<char>),
    Picture(Seq<char>),
}

impl View for Task {
    type V = TaskModel;

    open spec fn view(&self) -> TaskModel {
        match self {
            Task::Text(s) => TaskModel::Text(s@),
            Task::Picture(s) => TaskModel::Picture(s@),
        }
    }
}

/// The admin's verdict on an attempt: award the answer's points, deduct
/// them, or leave the score unchanged.
#[derive(Clone, Copy, Debug, PartialEq, Eq)]
pub enum Rating {
    Positive,
    Neutral,
    Negative,
}

/// The recorded result of one attempt, with the point value the answer had
/// when it was graded.
#[derive(Clone, Copy, Debug, PartialEq, Eq)]
pub enum Outcome {
    Correct(u16),
    Incorrect(u16),
    Neutral,
}

/// One recorded grading event against an answer. The player is remembered
/// by name snapshot, never by live reference.
#[derive(Clone, Debug)]
pub struct Attempt {
    pub player: String,
    pub outcome: Outcome,
}

/// Ghost model of an [`Attempt`].
#[verifier::ext_equal]
pub ghost struct AttemptView {
    pub player: Seq<char>,
    pub outcome: Outcome,
}

impl View for Attempt {
    type V = AttemptView;

    open spec fn view(&self) -> AttemptView {
        AttemptView { player: self.player@, outcome: self.outcome }
    }
}

/// One answer cell of the board. `points` may be overridden by the admin;
/// `catalog_points` keeps the value the catalog was loaded with, so a game
/// reset can restore it.
#[derive(Clone, Debug)]
pub struct Answer {
    pub task: Task,
    pub points: u16,
    pub catalog_points: u16,
    pub double: bool,
    pub attempts: Vec<Attempt>,
}

/// Ghost model of an [`Answer`].
#[verifier::ext_equal]
pub ghost struct AnswerModel {
    pub task: TaskModel,
    pub points: u16,
    pub catalog_points: u16,
    pub double: bool,
    pub attempts: Seq<AttemptView>,
}

impl View for Answer {
    type V = AnswerModel;

    open spec fn view(&self) -> AnswerModel {
        AnswerModel {
            task: self.task@,
            points: self.points,
            catalog_points: self.catalog_points,
            double: self.double,
            attempts: self.attempts@.map_values(|a: Attempt| a@),
        }
    }
}

impl Answer {
    /// A fresh answer as the catalog loader supplies it: no attempts yet,
    /// and the catalog value as the current point value.
    pub fn new(task: Task, points: u16, double: bool) -> (a: Answer)
        ensures
            a@.task == task@,
            a@.points == points,
            a@.catalog_points == points,
            a@.double == double,
            a@.attempts =~= Seq::<AttemptView>::empty(),
    {
        Answer { task, points, catalog_points: points, double, attempts: Vec::new() }
    }
}

/// A named column of the board.
#[derive(Clone, Debug)]
pub struct Category {
    pub name: String,
    pub answers: Vec<Answer>,
}

/// Ghost model of a [`Category`].
#[verifier::ext_equal]
pub ghost struct CategoryModel {
    pub name: Seq<char>,
    pub answers: Seq<AnswerModel>,
}

impl View for Category {
    type V = CategoryModel;

    open spec fn view(&self) -> CategoryModel {
        CategoryModel {
            name: self.name@,
            answers: self.answers@.map_values(|a: Answer| a@),
        }
    }
}

impl Category {
    pub fn new(name: String, answers: Vec<Answer>) -> (c: Category)
        ensures
            c@.name == name@,
            c@.answers == answers@.map_values(|a: Answer| a@),
    {
        Category { name, answers }
    }
}

/// The whole catalog for one game: an ordered sequence of categories.
#[derive(Clone, Debug)]
pub struct Board {
    pub categories: Vec<Category>,
}

impl View for Board {
    type V = Seq<CategoryModel>;

    open spec fn view(&self) -> Seq<CategoryModel> {
        self.categories@.map_values(|c: Category| c@)
    }
}

impl Board {
    pub fn new(categories: Vec<Category>) -> (b: Board)
        ensures
            b@ == categories@.map_values(|c: Category| c@),
    {
        Board { categories }
    }
}

/// Whether `(c, a)` indexes an existing answer of the board.
pub open spec fn index_ok(board: Seq<CategoryModel>, c: int, a: int) -> bool {
    0 <= c < board.len() && 0 <= a < board[c].answers.len()
}

/// The score change a rating causes, given the answer's current points.
pub open spec fn rating_delta(r: Rating, points: u16) -> int {
    match r {
        Rating::Positive => points as int,
        Rating::Negative => -(points as int),
        Rating::Neutral => 0,
    }
}

/// The outcome recorded for a rating, given the answer's current points.
pub open spec fn rating_outcome(r: Rating, points: u16) -> Outcome {
    match r {
        Rating::Positive => Outcome::Correct(points),
        Rating::Negative => Outcome::Incorrect(points),
        Rating::Neutral => Outcome::Neutral,
    }
}

} // verus!
