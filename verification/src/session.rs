//! The game session state machine: one process-wide instance holding the
//! board, the player registry, the active-player selector, the session
//! status and the identity cache. Every operation's contract is stated
//! against a ghost [`SessionModel`] through pure transition functions, so
//! that properties of several operations in a row can be proved at the
//! model level.

use vstd::prelude::*;

use crate::board::{
    index_ok, rating_delta, rating_outcome, Answer, AnswerModel, Attempt, AttemptView, Board,
    Category, CategoryModel, Outcome, Rating, Task, TaskModel,
};
use crate::identity::IdentityCache;
use crate::name::{is_valid_name, valid_name};
use crate::text::{dec_seq, u64_to_dec};

verus! {

/// Whether the session is open for registration (`Registration`) or in
/// play with the buzzer as the primary contestant action (`BuzzerActive`).
/// The admin toggles freely between the two.
#[derive(Clone, Copy, Debug, PartialEq, Eq, Structural)]
pub enum SessionStatus {
    Registration,
    BuzzerActive,
}

/// A registered contestant: the display name chosen at registration
/// (immutable thereafter) and the running score, which may go negative.
#[derive(Clone, Debug)]
pub struct Player {
    pub name: String,
    pub score: i64,
}

/// Ghost model of a [`Player`].
#[verifier::ext_equal]
pub ghost struct PlayerView {
    pub name: Seq<char>,
    pub score: int,
}

impl View for Player {
    type V = PlayerView;

    open spec fn view(&self) -> PlayerView {
        PlayerView { name: self.name@, score: self.score as int }
    }
}

/// Everything that can go wrong with a request against the session.
#[derive(Clone, Copy, Debug, PartialEq, Eq, Structural)]
pub enum GameError {
    /// The display name fails the allow-list check.
    InvalidName,
    /// Registration was attempted while the game is in progress.
    GameNotJoinable,
    /// The caller's network address could not be determined.
    IdentityUnavailable,
    /// A buzz from an address with no cached registration.
    NotRegistered,
    /// A category, answer or player index outside the current bounds.
    IndexOutOfRange,
    /// An admin operation from a non-loopback origin.
    Unauthorized,
    /// The question catalog is missing or malformed (fatal at startup).
    DataUnavailable,
}

/// The payload a revealed answer shows: the task text (or picture
/// reference) and whether the answer is flagged as a double.
#[derive(Clone, Debug)]
pub struct RevealedAnswer {
    pub content: String,
    pub double: bool,
}

/// The whole mutable state of one game.
#[derive(Debug)]
pub struct GameSession {
    pub board: Board,
    pub players: Vec<Player>,
    pub active: u8,
    pub status: SessionStatus,
    pub identity: IdentityCache,
}

/// Ghost model of a [`GameSession`].
#[verifier::ext_equal]
pub ghost struct SessionModel {
    pub board: Seq<CategoryModel>,
    pub players: Seq<PlayerView>,
    pub active: int,
    pub status: SessionStatus,
    pub identity: Map<Seq<char>, Seq<char>>,
}

impl View for GameSession {
    type V = SessionModel;

    open spec fn view(&self) -> SessionModel {
        SessionModel {
            board: self.board@,
            players: self.players@.map_values(|p: Player| p@),
            active: self.active as int,
            status: self.status,
            identity: self.identity@,
        }
    }
}

/// The view of an optional address.
pub open spec fn addr_view(a: Option<String>) -> Option<Seq<char>> {
    match a {
        Some(s) => Some(s@),
        None => None,
    }
}

/// The label recorded for a grading with no valid active player.
pub open spec fn placeholder_name(active: int) -> Seq<char> {
    "UNKNOWN No."@ + dec_seq((active + 1) as nat)
}

/// What `register` does to the model: while registration is open and the
/// name passes the allow-list, it rebinds the caller's address to the name
/// and appends a fresh player with score 0; otherwise it reports why not
/// and leaves the model alone. The checks happen in this order: status
/// first, then the name, then the address.
pub open spec fn spec_register(s: SessionModel, addr: Option<Seq<char>>, name: Seq<char>) -> (
    SessionModel,
    Result<(), GameError>,
) {
    if s.status != SessionStatus::Registration {
        (s, Err(GameError::GameNotJoinable))
    } else if !valid_name(name) {
        (s, Err(GameError::InvalidName))
    } else if addr is None {
        (s, Err(GameError::IdentityUnavailable))
    } else {
        (
            SessionModel {
                board: s.board,
                players: s.players.push(PlayerView { name: name, score: 0 }),
                active: s.active,
                status: s.status,
                identity: s.identity.insert(addr->Some_0, name),
            },
            Ok(()),
        )
    }
}

/// What `buzz` returns: the cached name for the caller's address, or the
/// reason there is none. The session status plays no part.
pub open spec fn spec_buzz(s: SessionModel, addr: Option<Seq<char>>) -> Result<
    Seq<char>,
    GameError,
> {
    if addr is None {
        Err(GameError::IdentityUnavailable)
    } else if !s.identity.contains_key(addr->Some_0) {
        Err(GameError::NotRegistered)
    } else {
        Ok(s.identity[addr->Some_0])
    }
}

/// The name a grading records: the active player's display name, or a
/// synthesized placeholder when the active index is out of range.
pub open spec fn graded_name(s: SessionModel) -> Seq<char> {
    if 0 <= s.active < s.players.len() {
        s.players[s.active].name
    } else {
        placeholder_name(s.active)
    }
}

/// The registry after applying a score delta to the active player; no
/// player changes when the active index is out of range.
pub open spec fn graded_players(players: Seq<PlayerView>, active: int, delta: int) -> Seq<
    PlayerView,
> {
    if 0 <= active < players.len() {
        players.update(
            active,
            PlayerView { name: players[active].name, score: players[active].score + delta },
        )
    } else {
        players
    }
}

/// The board with the answer at `(c, a)` replaced.
pub open spec fn board_with(
    board: Seq<CategoryModel>,
    c: int,
    a: int,
    ans: AnswerModel,
) -> Seq<CategoryModel> {
    board.update(c, CategoryModel { name: board[c].name, answers: board[c].answers.update(a, ans) })
}

/// What `grade` does to the model: with valid indices it applies the
/// rating's delta (the answer's point value as it stands now) to the
/// active player's score — or to nobody, when the active index is out of
/// range — and appends the attempt record to that answer's history;
/// with bad indices it changes nothing.
pub open spec fn spec_grade(s: SessionModel, c: int, a: int, r: Rating) -> (
    SessionModel,
    Result<(), GameError>,
) {
    if !index_ok(s.board, c, a) {
        (s, Err(GameError::IndexOutOfRange))
    } else {
        let ans = s.board[c].answers[a];
        let att = AttemptView { player: graded_name(s), outcome: rating_outcome(r, ans.points) };
        let new_ans = AnswerModel {
            task: ans.task,
            points: ans.points,
            catalog_points: ans.catalog_points,
            double: ans.double,
            attempts: ans.attempts.push(att),
        };
        (
            SessionModel {
                board: board_with(s.board, c, a, new_ans),
                players: graded_players(s.players, s.active, rating_delta(r, ans.points)),
                active: s.active,
                status: s.status,
                identity: s.identity,
            },
            Ok(()),
        )
    }
}

/// What `set_answer_value` does to the model: with valid indices it
/// overwrites the answer's current point value (the catalog value stays
/// remembered); with bad indices it changes nothing.
pub open spec fn spec_set_answer_value(s: SessionModel, c: int, a: int, v: u16) -> (
    SessionModel,
    Result<(), GameError>,
) {
    if !index_ok(s.board, c, a) {
        (s, Err(GameError::IndexOutOfRange))
    } else {
        let ans = s.board[c].answers[a];
        let new_ans = AnswerModel {
            task: ans.task,
            points: v,
            catalog_points: ans.catalog_points,
            double: ans.double,
            attempts: ans.attempts,
        };
        (
            SessionModel {
                board: board_with(s.board, c, a, new_ans),
                players: s.players,
                active: s.active,
                status: s.status,
                identity: s.identity,
            },
            Ok(()),
        )
    }
}

/// The status a numeric code selects: 0 is `Registration`, anything else
/// `BuzzerActive`.
pub open spec fn status_of_code(code: u8) -> SessionStatus {
    if code == 0 {
        SessionStatus::Registration
    } else {
        SessionStatus::BuzzerActive
    }
}

/// An answer as a game reset leaves it: catalog value restored, history
/// cleared.
pub open spec fn reset_answer(ans: AnswerModel) -> AnswerModel {
    AnswerModel {
        task: ans.task,
        points: ans.catalog_points,
        catalog_points: ans.catalog_points,
        double: ans.double,
        attempts: Seq::empty(),
    }
}

/// The board as a game reset leaves it.
pub open spec fn reset_board(board: Seq<CategoryModel>) -> Seq<CategoryModel> {
    board.map_values(
        |c: CategoryModel|
            CategoryModel {
                name: c.name,
                answers: c.answers.map_values(|a: AnswerModel| reset_answer(a)),
            },
    )
}

/// What `reset_game` does to the model: players and identity cache gone,
/// registration open again, active pointer back at its default, and every
/// answer pristine.
pub open spec fn spec_reset(s: SessionModel) -> SessionModel {
    SessionModel {
        board: reset_board(s.board),
        players: Seq::empty(),
        active: 0,
        status: SessionStatus::Registration,
        identity: Map::empty(),
    }
}

/// Whether a grading's score arithmetic stays within `i64`. It binds only
/// when the indices are valid and a real player is active; the bound is a
/// machine limit, not a rule of the game.
pub open spec fn grade_fits(s: SessionModel, c: int, a: int, r: Rating) -> bool {
    (index_ok(s.board, c, a) && 0 <= s.active < s.players.len()) ==> ({
        let sc = s.players[s.active].score + rating_delta(r, s.board[c].answers[a].points);
        i64::MIN <= sc <= i64::MAX
    })
}

/// What the combined answer endpoint does to the model: nothing on bad
/// indices; otherwise an optional grading first, then an optional point
/// value override. The order is observable: a request carrying both a
/// rating and a new value grades with the value the answer had when the
/// request arrived, and only then overrides it.
pub open spec fn spec_answer_request(
    s: SessionModel,
    c: int,
    a: int,
    rating: Option<Rating>,
    value: Option<u16>,
) -> SessionModel {
    if !index_ok(s.board, c, a) {
        s
    } else {
        let s1 = if rating is Some {
            spec_grade(s, c, a, rating->Some_0).0
        } else {
            s
        };
        if value is Some {
            spec_set_answer_value(s1, c, a, value->Some_0).0
        } else {
            s1
        }
    }
}

/// Admits an admin operation only from the loopback address.
pub fn authorize_admin(loopback: bool) -> (r: Result<(), GameError>)
    ensures
        r == if loopback {
            Ok::<(), GameError>(())
        } else {
            Err::<(), GameError>(GameError::Unauthorized)
        },
{
    if loopback {
        Ok(())
    } else {
        Err(GameError::Unauthorized)
    }
}

impl GameSession {
    /// Well-formed: the identity cache holds each address once.
    pub open spec fn wf(&self) -> bool {
        self.identity.wf()
    }

    /// A fresh session over a loaded catalog: no players, registration
    /// open, active pointer at its default slot 0.
    pub fn new(board: Board) -> (s: GameSession)
        ensures
            s.wf(),
            s@.board == board@,
            s@.players =~= Seq::<PlayerView>::empty(),
            s@.active == 0,
            s@.status == SessionStatus::Registration,
            s@.identity == Map::<Seq<char>, Seq<char>>::empty(),
    {
        let s = GameSession {
            board,
            players: Vec::new(),
            active: 0,
            status: SessionStatus::Registration,
            identity: IdentityCache::new(),
        };
        proof {
            assert(s@.players =~= Seq::<PlayerView>::empty());
        }
        s
    }

    /// Registers a contestant: rebinds the caller's address to the chosen
    /// name and appends a fresh player with score 0. Registration from an
    /// address already bound appends a second player and only rebinds the
    /// cache; the registry is append-only.
    pub fn register(&mut self, address: Option<String>, name: String) -> (r: Result<
        (),
        GameError,
    >)
        requires
            old(self).wf(),
        ensures
            final(self).wf(),
            final(self)@ == spec_register(old(self)@, addr_view(address), name@).0,
            r == spec_register(old(self)@, addr_view(address), name@).1,
    {
        if self.status != SessionStatus::Registration {
            return Err(GameError::GameNotJoinable);
        }
        if !is_valid_name(name.as_str()) {
            return Err(GameError::InvalidName);
        }
        match address {
            None => Err(GameError::IdentityUnavailable),
            Some(addr) => {
                self.identity.insert(addr, name.clone());
                self.players.push(Player { name, score: 0 });
                proof {
                    assert(self@ =~~= spec_register(old(self)@, addr_view(address), name@).0);
                }
                Ok(())
            },
        }
    }

    /// A contestant's buzz: recognises the caller by the cached binding
    /// for their address and returns the registered display name, whatever
    /// the session status. A cache miss — never registered, or the entry
    /// expired — is `NotRegistered`.
    pub fn buzz(&self, address: Option<&String>) -> (r: Result<String, GameError>)
        ensures
            ({
                let sr = spec_buzz(
                    self@,
                    match address {
                        Some(a) => Some(a@),
                        None => None,
                    },
                );
                match r {
                    Ok(n) => sr == Ok::<Seq<char>, GameError>(n@),
                    Err(e) => sr == Err::<Seq<char>, GameError>(e),
                }
            }),
    {
        match address {
            None => Err(GameError::IdentityUnavailable),
            Some(addr) => {
                match self.identity.lookup(addr) {
                    None => Err(GameError::NotRegistered),
                    Some(name) => Ok(name),
                }
            },
        }
    }

    /// The admin's status switch: code 0 opens registration, any other
    /// code closes it and arms the buzzer. Idempotent.
    pub fn set_status(&mut self, code: u8)
        requires
            old(self).wf(),
        ensures
            final(self).wf(),
            final(self)@ == (SessionModel { status: status_of_code(code), ..old(self)@ }),
    {
        self.status = if code == 0 {
            SessionStatus::Registration
        } else {
            SessionStatus::BuzzerActive
        };
        proof {
            assert(self@ =~~= SessionModel { status: status_of_code(code), ..old(self)@ });
        }
    }

    /// The admin's player selector: unconditionally overwrites the active
    /// pointer, an out-of-range index included (grading tolerates it).
    pub fn select_active_player(&mut self, index: u8)
        requires
            old(self).wf(),
        ensures
            final(self).wf(),
            final(self)@ == (SessionModel { active: index as int, ..old(self)@ }),
    {
        self.active = index;
        proof {
            assert(self@ =~~= SessionModel { active: index as int, ..old(self)@ });
        }
    }

    /// Reveals an answer for display: its task payload (text or picture
    /// reference) and its double flag. No side effect.
    pub fn reveal_answer(&self, c: usize, a: usize) -> (r: Result<RevealedAnswer, GameError>)
        ensures
            index_ok(self@.board, c as int, a as int) ==> ({
                &&& r is Ok
                &&& ({
                    let content = r->Ok_0.content@;
                    match self@.board[c as int].answers[a as int].task {
                        TaskModel::Text(t) => content == t,
                        TaskModel::Picture(u) => content == u,
                    }
                })
                &&& r->Ok_0.double == self@.board[c as int].answers[a as int].double
            }),
            !index_ok(self@.board, c as int, a as int) ==> r == Err::<RevealedAnswer, GameError>(
                GameError::IndexOutOfRange,
            ),
    {
        if c >= self.board.categories.len() {
            return Err(GameError::IndexOutOfRange);
        }
        if a >= self.board.categories[c].answers.len() {
            return Err(GameError::IndexOutOfRange);
        }
        let answer = &self.board.categories[c].answers[a];
        let content = match &answer.task {
            Task::Text(t) => t.clone(),
            Task::Picture(u) => u.clone(),
        };
        Ok(RevealedAnswer { content, double: answer.double })
    }

    /// Overwrites an answer's current point value, for wager-style
    /// doubles. Future reveals and gradings use the new value.
    pub fn set_answer_value(&mut self, c: usize, a: usize, value: u16) -> (r: Result<
        (),
        GameError,
    >)
        requires
            old(self).wf(),
        ensures
            final(self).wf(),
            final(self)@ == spec_set_answer_value(old(self)@, c as int, a as int, value).0,
            r == spec_set_answer_value(old(self)@, c as int, a as int, value).1,
    {
        if c >= self.board.categories.len() {
            return Err(GameError::IndexOutOfRange);
        }
        if a >= self.board.categories[c].answers.len() {
            return Err(GameError::IndexOutOfRange);
        }
        self.board.categories[c].answers[a].points = value;
        proof {
            assert(self@ =~~= spec_set_answer_value(old(self)@, c as int, a as int, value).0);
        }
        Ok(())
    }

    /// Grades a revealed answer. With valid indices: applies the rating to
    /// the active player's score — adding the answer's current point value
    /// for `Positive`, subtracting it for `Negative`, leaving it for
    /// `Neutral`; when the active index is out of range no score changes —
    /// and appends an attempt record carrying the graded player's name (or
    /// a synthesized placeholder) and the point value as it stood now.
    /// Nothing stops an answer being graded twice: each call scores and
    /// records again.
    pub fn grade(&mut self, c: usize, a: usize, rating: Rating) -> (r: Result<(), GameError>)
        requires
            old(self).wf(),
            grade_fits(old(self)@, c as int, a as int, rating),
        ensures
            final(self).wf(),
            final(self)@ == spec_grade(old(self)@, c as int, a as int, rating).0,
            r == spec_grade(old(self)@, c as int, a as int, rating).1,
    {
        if c >= self.board.categories.len() {
            return Err(GameError::IndexOutOfRange);
        }
        if a >= self.board.categories[c].answers.len() {
            return Err(GameError::IndexOutOfRange);
        }
        let points = self.board.categories[c].answers[a].points;
        let active = self.active as usize;
        let player_label: String;
        if active < self.players.len() {
            proof {
                assert(old(self)@.players[active as int].score == self.players@[active as int].score
                    as int);
                assert(old(self)@.board[c as int].answers[a as int].points == points);
            }
            match rating {
                Rating::Positive => {
                    let cur = self.players[active].score;
                    self.players[active].score = cur + points as i64;
                },
                Rating::Negative => {
                    let cur = self.players[active].score;
                    self.players[active].score = cur - points as i64;
                },
                Rating::Neutral => {},
            }
            player_label = self.players[active].name.clone();
        } else {
            let mut label = String::from_str("UNKNOWN No.");
            let digits = u64_to_dec(self.active as u64 + 1);
            label.append(digits.as_str());
            player_label = label;
        }
        let outcome = match rating {
            Rating::Positive => Outcome::Correct(points),
            Rating::Negative => Outcome::Incorrect(points),
            Rating::Neutral => Outcome::Neutral,
        };
        self.board.categories[c].answers[a].attempts.push(
            Attempt { player: player_label, outcome },
        );
        proof {
            assert(self@ =~~= spec_grade(old(self)@, c as int, a as int, rating).0);
        }
        Ok(())
    }

    /// The combined answer endpoint the admin page drives: reveals the
    /// answer at `(c, a)`, then grades it if a rating came with the
    /// request, then overrides its point value if a new value came with
    /// it — in that order, so a grading in the same request still uses
    /// the value the answer had before the override. Bad indices reject
    /// the whole request and change nothing.
    pub fn answer_request(
        &mut self,
        c: usize,
        a: usize,
        rating: Option<Rating>,
        value: Option<u16>,
    ) -> (r: Result<RevealedAnswer, GameError>)
        requires
            old(self).wf(),
            rating matches Some(rt) ==> grade_fits(old(self)@, c as int, a as int, rt),
        ensures
            final(self).wf(),
            final(self)@ == spec_answer_request(old(self)@, c as int, a as int, rating, value),
            r is Ok <==> index_ok(old(self)@.board, c as int, a as int),
            r is Err ==> r == Err::<RevealedAnswer, GameError>(GameError::IndexOutOfRange),
            r is Ok ==> ({
                let ans = old(self)@.board[c as int].answers[a as int];
                &&& (match ans.task {
                    TaskModel::Text(t) => r->Ok_0.content@ == t,
                    TaskModel::Picture(u) => r->Ok_0.content@ == u,
                })
                &&& r->Ok_0.double == ans.double
            }),
    {
        let revealed = match self.reveal_answer(c, a) {
            Ok(x) => x,
            Err(e) => {
                return Err(e);
            },
        };
        if let Some(rt) = rating {
            let graded = self.grade(c, a, rt);
            proof {
                assert(graded is Ok);
            }
        }
        let ghost mid = self@;
        if let Some(v) = value {
            proof {
                assert(index_ok(mid.board, c as int, a as int));
            }
            let overridden = self.set_answer_value(c, a, v);
            proof {
                assert(overridden is Ok);
            }
        }
        Ok(revealed)
    }

    /// Resets the game: the registry and the identity cache are emptied,
    /// every answer gets its catalog value back and loses its history,
    /// registration opens again and the active pointer returns to its
    /// default.
    pub fn reset_game(&mut self)
        requires
            old(self).wf(),
        ensures
            final(self).wf(),
            final(self)@ == spec_reset(old(self)@),
    {
        let ncats = self.board.categories.len();
        let mut ci: usize = 0;
        while ci < ncats
            invariant
                ncats == self.board.categories@.len(),
                ncats == old(self)@.board.len(),
                0 <= ci <= ncats,
                self.players == old(self).players,
                self.active == old(self).active,
                self.status == old(self).status,
                self.identity == old(self).identity,
                forall|i: int|
                    0 <= i < ci ==> #[trigger] self.board@[i] == reset_board(old(self)@.board)[i],
                forall|i: int| ci <= i < ncats ==> #[trigger] self.board@[i] == old(self)@.board[i],
            decreases ncats - ci,
        {
            let ghost pre = self.board.categories@;
            proof {
                assert(self.board@[ci as int] == old(self)@.board[ci as int]);
                assert(pre[ci as int]@ == old(self)@.board[ci as int]);
            }
            reset_answers(&mut self.board.categories[ci].answers);
            proof {
                let cur = self.board.categories@;
                let target = reset_board(old(self)@.board);
                assert(cur.len() == pre.len());
                assert(forall|i: int|
                    0 <= i < pre.len() && i != ci ==> #[trigger] cur[i] == pre[i]);
                assert(cur[ci as int].name@ == pre[ci as int].name@);
                let n = pre[ci as int].answers@.len();
                assert(cur[ci as int].answers@.len() == n);
                assert(target[ci as int].answers.len() == n);
                assert forall|j: int| 0 <= j < n implies self.board@[ci as int].answers[j]
                    == target[ci as int].answers[j] by {
                    assert(self.board@[ci as int].answers[j] == (cur[ci as int].answers@[j])@);
                    assert((cur[ci as int].answers@[j])@ == reset_answer(
                        pre[ci as int].answers@[j]@,
                    ));
                    assert(old(self)@.board[ci as int].answers[j] == (pre[ci as int].answers@[j])@);
                    assert(target[ci as int].answers[j] == reset_answer(
                        old(self)@.board[ci as int].answers[j],
                    ));
                }
                assert(self.board@[ci as int].answers =~= target[ci as int].answers);
                assert(self.board@[ci as int] =~~= target[ci as int]);
                assert(forall|i: int|
                    0 <= i < ncats && i != ci ==> #[trigger] self.board@[i] == pre.map_values(
                        |x: Category| x@,
                    )[i]);
            }
            ci = ci + 1;
        }
        self.players.clear();
        self.identity.clear();
        self.active = 0;
        self.status = SessionStatus::Registration;
        proof {
            assert(self@.board =~= spec_reset(old(self)@).board);
            assert(self@ =~~= spec_reset(old(self)@));
        }
    }
}

/// Restores each answer of one category to its catalog state: points back
/// to the catalog value, attempt history gone.
fn reset_answers(answers: &mut Vec<Answer>)
    ensures
        final(answers)@.len() == old(answers)@.len(),
        forall|i: int|
            0 <= i < old(answers)@.len() ==> (#[trigger] final(answers)@[i])@ == reset_answer(
                old(answers)@[i]@,
            ),
{
    let n = answers.len();
    let mut i: usize = 0;
    while i < n
        invariant
            n == answers@.len(),
            0 <= i <= n,
            forall|j: int| 0 <= j < i ==> (#[trigger] answers@[j])@ == reset_answer(old(answers)@[j]@),
            forall|j: int| i <= j < n ==> #[trigger] answers@[j] == old(answers)@[j],
        decreases n - i,
    {
        let catalog = answers[i].catalog_points;
        answers[i].points = catalog;
        answers[i].attempts.clear();
        proof {
            assert((answers@[i as int])@ =~~= reset_answer(old(answers)@[i as int]@));
        }
        i = i + 1;
    }
}

} // verus!
