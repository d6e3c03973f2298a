//! Laws of the session state machine, proved once and for all over the
//! model-level transition functions that the executable operations are
//! verified against.

use vstd::prelude::*;

use crate::board::{index_ok, rating_delta, rating_outcome, Rating};
use crate::name::valid_name;
use crate::session::{
    graded_name, placeholder_name, spec_buzz, spec_grade, spec_register, spec_set_answer_value,
    GameError, SessionModel, SessionStatus,
};

verus! {

/// A registration with a valid name and a known address succeeds exactly
/// when the session status is `Registration`.
pub proof fn lemma_register_succeeds_iff_open(s: SessionModel, addr: Seq<char>, name: Seq<char>)
    requires
        valid_name(name),
    ensures
        spec_register(s, Some(addr), name).1 is Ok <==> s.status == SessionStatus::Registration,
{
}

/// Registering twice from the same address — under a different name or
/// the same one — appends two registry entries, both starting at score 0,
/// while the identity cache keeps only the later binding. The registry is
/// append-only; re-registration deduplicates nothing.
pub proof fn lemma_reregister_appends_two(
    s: SessionModel,
    addr: Seq<char>,
    name1: Seq<char>,
    name2: Seq<char>,
)
    requires
        s.status == SessionStatus::Registration,
        valid_name(name1),
        valid_name(name2),
    ensures
        ({
            let (s1, r1) = spec_register(s, Some(addr), name1);
            let (s2, r2) = spec_register(s1, Some(addr), name2);
            &&& r1 is Ok
            &&& r2 is Ok
            &&& s2.players.len() == s.players.len() + 2
            &&& s2.players[s.players.len() as int].name == name1
            &&& s2.players[s.players.len() as int].score == 0
            &&& s2.players[s.players.len() as int + 1].name == name2
            &&& s2.players[s.players.len() as int + 1].score == 0
            &&& s2.identity.contains_key(addr)
            &&& s2.identity[addr] == name2
        }),
{
}

/// A buzz from an address the identity cache does not know — never
/// registered, or expired — answers `NotRegistered`. No hypothesis is
/// made on the session status: the answer is the same in either state.
pub proof fn lemma_buzz_unregistered(s: SessionModel, addr: Seq<char>)
    requires
        !s.identity.contains_key(addr),
    ensures
        spec_buzz(s, Some(addr)) == Err::<Seq<char>, GameError>(GameError::NotRegistered),
{
}

/// Grading with a real active player moves exactly that player's score by
/// exactly the answer's current point value — up for `Positive`, down for
/// `Negative`, not at all for `Neutral` — and appends one attempt under
/// the player's name with the outcome mirroring the rating.
pub proof fn lemma_grade_score_delta(s: SessionModel, c: int, a: int, r: Rating)
    requires
        index_ok(s.board, c, a),
        0 <= s.active < s.players.len(),
    ensures
        ({
            let pts = s.board[c].answers[a].points;
            let (s2, res) = spec_grade(s, c, a, r);
            &&& res is Ok
            &&& s2.players.len() == s.players.len()
            &&& s2.players[s.active].score == s.players[s.active].score + rating_delta(r, pts)
            &&& s2.players[s.active].name == s.players[s.active].name
            &&& (forall|i: int|
                0 <= i < s.players.len() && i != s.active ==> #[trigger] s2.players[i]
                    == s.players[i])
            &&& s2.board[c].answers[a].attempts == s.board[c].answers[a].attempts.push(
                crate::board::AttemptView {
                    player: s.players[s.active].name,
                    outcome: rating_outcome(r, pts),
                },
            )
        }),
{
}

/// Grading with an out-of-range active index changes no player at all,
/// but still appends an attempt, under the synthesized placeholder label.
pub proof fn lemma_grade_out_of_range(s: SessionModel, c: int, a: int, r: Rating)
    requires
        index_ok(s.board, c, a),
        !(0 <= s.active < s.players.len()),
    ensures
        ({
            let (s2, res) = spec_grade(s, c, a, r);
            &&& res is Ok
            &&& s2.players == s.players
            &&& graded_name(s) == placeholder_name(s.active)
            &&& s2.board[c].answers[a].attempts.len() == s.board[c].answers[a].attempts.len() + 1
            &&& s2.board[c].answers[a].attempts.last().player == placeholder_name(s.active)
        }),
{
}

/// Grading is additive, never idempotent: grading the same answer twice
/// appends two attempts and applies the two score deltas one after the
/// other.
pub proof fn lemma_grade_twice(s: SessionModel, c: int, a: int, r1: Rating, r2: Rating)
    requires
        index_ok(s.board, c, a),
    ensures
        ({
            let pts = s.board[c].answers[a].points;
            let s1 = spec_grade(s, c, a, r1).0;
            let s2 = spec_grade(s1, c, a, r2).0;
            &&& s2.board[c].answers[a].attempts.len() == s.board[c].answers[a].attempts.len() + 2
            &&& (0 <= s.active < s.players.len() ==> s2.players[s.active].score
                == s.players[s.active].score + rating_delta(r1, pts) + rating_delta(r2, pts))
        }),
{
    let pts = s.board[c].answers[a].points;
    let s1 = spec_grade(s, c, a, r1).0;
    assert(s1.board[c].answers[a].points == pts);
    assert(s1.players.len() == s.players.len());
}

/// Overriding an answer's value and then grading uses the new value, not
/// the catalog original: the score delta and the recorded outcome both
/// carry the override.
pub proof fn lemma_override_then_grade(s: SessionModel, c: int, a: int, v: u16, r: Rating)
    requires
        index_ok(s.board, c, a),
    ensures
        ({
            let s1 = spec_set_answer_value(s, c, a, v).0;
            let (s2, res) = spec_grade(s1, c, a, r);
            &&& res is Ok
            &&& (0 <= s.active < s.players.len() ==> s2.players[s.active].score
                == s.players[s.active].score + rating_delta(r, v))
            &&& s2.board[c].answers[a].attempts.last().outcome == rating_outcome(r, v)
        }),
{
}

/// Repeated gradings of one answer, at the model level.
pub open spec fn spec_grade_n(s: SessionModel, c: int, a: int, r: Rating, n: nat) -> SessionModel
    decreases n,
{
    if n == 0 {
        s
    } else {
        spec_grade(spec_grade_n(s, c, a, r, (n - 1) as nat), c, a, r).0
    }
}

/// After `n` gradings of one answer, that answer's history holds exactly
/// `n` more attempts, and the history of every other answer is untouched.
/// Together with the snapshot's contract — one line per recorded attempt —
/// the admin page shows exactly `n` lines for the graded answer and none
/// for an answer that started out ungraded.
pub proof fn lemma_grade_n_attempts(s: SessionModel, c: int, a: int, r: Rating, n: nat)
    requires
        index_ok(s.board, c, a),
    ensures
        ({
            let t = spec_grade_n(s, c, a, r, n);
            &&& t.board.len() == s.board.len()
            &&& (forall|i: int|
                0 <= i < s.board.len() ==> (#[trigger] t.board[i]).answers.len()
                    == s.board[i].answers.len())
            &&& t.board[c].answers[a].attempts.len() == s.board[c].answers[a].attempts.len() + n
            &&& (forall|i: int, j: int|
                index_ok(s.board, i, j) && !(i == c && j == a)
                    ==> (#[trigger] t.board[i].answers[j]).attempts == s.board[i].answers[j].attempts)
        }),
    decreases n,
{
    if n > 0 {
        lemma_grade_n_attempts(s, c, a, r, (n - 1) as nat);
    }
}

} // verus!
