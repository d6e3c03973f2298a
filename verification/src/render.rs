//! The admin snapshot: a read-only, structured projection of the session
//! for the admin page — category names, per-answer cells (the point value,
//! or the attempt history as `"<sign> <player> (<points>)"` lines once the
//! answer has been graded), per-player `"<name>: <score>"` lines, and the
//! current status code.

use vstd::prelude::*;

use crate::board::{Attempt, AttemptView, Outcome};
use crate::session::{GameSession, Player, PlayerView, SessionStatus};
use crate::text::{dec_seq, i64_to_dec, int_seq, u64_to_dec};

verus! {

/// One rendered attempt: `"+ <player> (<points>)"` for a correct answer,
/// `"- <player> (<points>)"` for an incorrect one, `"0 <player>"` for a
/// neutral grading.
pub open spec fn attempt_line(t: AttemptView) -> Seq<char> {
    match t.outcome {
        Outcome::Correct(p) => "+ "@ + t.player + " ("@ + dec_seq(p as nat) + ")"@,
        Outcome::Incorrect(p) => "- "@ + t.player + " ("@ + dec_seq(p as nat) + ")"@,
        Outcome::Neutral => "0 "@ + t.player,
    }
}

/// One rendered registry row: `"<name>: <score>"`.
pub open spec fn player_line(p: PlayerView) -> Seq<char> {
    p.name + ": "@ + int_seq(p.score)
}

/// The numeric code of a status, as `set_status` reads it: 0 opens
/// registration, 1 stands for the buzzer being active.
pub open spec fn code_of_status(s: SessionStatus) -> int {
    if s == SessionStatus::Registration {
        0
    } else {
        1
    }
}

/// One answer cell of the snapshot: the attempt history, one line per
/// recorded attempt, and the point value as text for the display of an
/// answer nobody has tried yet.
#[derive(Debug)]
pub struct AnswerCell {
    pub attempt_lines: Vec<String>,
    pub points_label: String,
}

/// One category column of the snapshot.
#[derive(Debug)]
pub struct CategoryColumn {
    pub name: String,
    pub cells: Vec<AnswerCell>,
}

/// The whole admin snapshot.
#[derive(Debug)]
pub struct AdminSnapshot {
    pub categories: Vec<CategoryColumn>,
    pub players: Vec<String>,
    pub status_code: u8,
}

/// Renders one attempt record.
fn attempt_line_string(t: &Attempt) -> (s: String)
    ensures
        s@ == attempt_line(t@),
{
    match &t.outcome {
        Outcome::Correct(p) => {
            let mut s = String::from_str("+ ");
            s.append(t.player.as_str());
            s.append(" (");
            let digits = u64_to_dec(*p as u64);
            s.append(digits.as_str());
            s.append(")");
            s
        },
        Outcome::Incorrect(p) => {
            let mut s = String::from_str("- ");
            s.append(t.player.as_str());
            s.append(" (");
            let digits = u64_to_dec(*p as u64);
            s.append(digits.as_str());
            s.append(")");
            s
        },
        Outcome::Neutral => {
            let mut s = String::from_str("0 ");
            s.append(t.player.as_str());
            s
        },
    }
}

/// Renders one registry row.
fn player_line_string(p: &Player) -> (s: String)
    ensures
        s@ == player_line(p@),
{
    let mut s = p.name.clone();
    s.append(": ");
    let score = i64_to_dec(p.score);
    s.append(score.as_str());
    s
}

/// Renders one answer cell.
fn answer_cell(attempts: &Vec<Attempt>, points: u16) -> (cell: AnswerCell)
    ensures
        cell.attempt_lines@.len() == attempts@.len(),
        forall|k: int|
            0 <= k < attempts@.len() ==> (#[trigger] cell.attempt_lines@[k])@ == attempt_line(
                attempts@[k]@,
            ),
        cell.points_label@ == dec_seq(points as nat),
{
    let mut lines: Vec<String> = Vec::new();
    let n = attempts.len();
    let mut k: usize = 0;
    while k < n
        invariant
            n == attempts@.len(),
            0 <= k <= n,
            lines@.len() == k,
            forall|j: int|
                0 <= j < k ==> (#[trigger] lines@[j])@ == attempt_line(attempts@[j]@),
        decreases n - k,
    {
        let line = attempt_line_string(&attempts[k]);
        lines.push(line);
        k = k + 1;
    }
    AnswerCell { attempt_lines: lines, points_label: u64_to_dec(points as u64) }
}

impl GameSession {
    /// The read-only projection the admin page shows. Every category and
    /// every answer appears, in board order; an answer's cell carries
    /// exactly one line per recorded attempt (none for an ungraded
    /// answer, whose point value is shown instead); every player appears,
    /// in registration order, with the running score; and the status code
    /// mirrors the current status.
    pub fn render_admin_snapshot(&self) -> (v: AdminSnapshot)
        ensures
            v.categories@.len() == self@.board.len(),
            forall|i: int|
                0 <= i < self@.board.len() ==> {
                    let col = #[trigger] v.categories@[i];
                    let cat = self@.board[i];
                    &&& col.name@ == cat.name
                    &&& col.cells@.len() == cat.answers.len()
                },
            forall|i: int, j: int|
                0 <= i < self@.board.len() && 0 <= j < self@.board[i].answers.len() ==> {
                    let cell = #[trigger] v.categories@[i].cells@[j];
                    let ans = self@.board[i].answers[j];
                    &&& cell.attempt_lines@.len() == ans.attempts.len()
                    &&& (forall|k: int|
                        0 <= k < ans.attempts.len() ==> (#[trigger] cell.attempt_lines@[k])@
                            == attempt_line(ans.attempts[k]))
                    &&& cell.points_label@ == dec_seq(ans.points as nat)
                },
            v.players@.len() == self@.players.len(),
            forall|i: int|
                0 <= i < self@.players.len() ==> (#[trigger] v.players@[i])@ == player_line(
                    self@.players[i],
                ),
            v.status_code == code_of_status(self@.status),
    {
        let mut columns: Vec<CategoryColumn> = Vec::new();
        let ncats = self.board.categories.len();
        let mut ci: usize = 0;
        while ci < ncats
            invariant
                ncats == self.board.categories@.len(),
                0 <= ci <= ncats,
                columns@.len() == ci,
                forall|i: int|
                    0 <= i < ci ==> {
                        let col = #[trigger] columns@[i];
                        let cat = self@.board[i];
                        &&& col.name@ == cat.name
                        &&& col.cells@.len() == cat.answers.len()
                        &&& (forall|j: int, k: int|
                            0 <= j < cat.answers.len() && 0 <= k
                                < cat.answers[j].attempts.len() ==> (
                            #[trigger] col.cells@[j].attempt_lines@[k])@ == attempt_line(
                                cat.answers[j].attempts[k],
                            ))
                        &&& (forall|j: int|
                            0 <= j < cat.answers.len() ==> {
                                let cell = #[trigger] col.cells@[j];
                                &&& cell.attempt_lines@.len() == cat.answers[j].attempts.len()
                                &&& cell.points_label@ == dec_seq(cat.answers[j].points as nat)
                            })
                    },
            decreases ncats - ci,
        {
            let category = &self.board.categories[ci];
            let mut cells: Vec<AnswerCell> = Vec::new();
            let nans = category.answers.len();
            let mut ai: usize = 0;
            while ai < nans
                invariant
                    nans == category.answers@.len(),
                    0 <= ai <= nans,
                    cells@.len() == ai,
                    forall|j: int|
                        0 <= j < ai ==> {
                            let cell = #[trigger] cells@[j];
                            let ans = category.answers@[j]@;
                            &&& cell.attempt_lines@.len() == ans.attempts.len()
                            &&& (forall|k: int|
                                0 <= k < ans.attempts.len() ==> (
                                #[trigger] cell.attempt_lines@[k])@ == attempt_line(
                                    ans.attempts[k],
                                ))
                            &&& cell.points_label@ == dec_seq(ans.points as nat)
                        },
                decreases nans - ai,
            {
                let answer = &category.answers[ai];
                let cell = answer_cell(&answer.attempts, answer.points);
                cells.push(cell);
                ai = ai + 1;
            }
            let column = CategoryColumn { name: category.name.clone(), cells };
            columns.push(column);
            proof {
                assert(self@.board[ci as int].name == category.name@);
                assert(self@.board[ci as int].answers.len() == category.answers@.len());
                assert(forall|j: int|
                    0 <= j < category.answers@.len() ==> #[trigger] self@.board[ci as int].answers[j]
                        == category.answers@[j]@);
            }
            ci = ci + 1;
        }
        let mut rows: Vec<String> = Vec::new();
        let nplayers = self.players.len();
        let mut pi: usize = 0;
        while pi < nplayers
            invariant
                nplayers == self.players@.len(),
                0 <= pi <= nplayers,
                rows@.len() == pi,
                forall|i: int|
                    0 <= i < pi ==> (#[trigger] rows@[i])@ == player_line(self@.players[i]),
            decreases nplayers - pi,
        {
            let row = player_line_string(&self.players[pi]);
            rows.push(row);
            pi = pi + 1;
        }
        let status_code: u8 = if self.status == SessionStatus::Registration {
            0
        } else {
            1
        };
        AdminSnapshot { categories: columns, players: rows, status_code }
    }
}

} // verus!
