use jeopardy::board::{Answer, Board, Category, Outcome, Rating, Task};
use jeopardy::session::{GameError, GameSession, SessionStatus};

fn sample_board() -> Board {
    let history = Category::new(
        "History".to_string(),
        vec![
            Answer::new(Task::Text("First moon landing".to_string()), 200, false),
            Answer::new(Task::Text("Fall of the wall".to_string()), 400, true),
        ],
    );
    let science = Category::new(
        "Science".to_string(),
        vec![
            Answer::new(Task::Picture("planets.png".to_string()), 100, false),
            Answer::new(Task::Text("Speed of light".to_string()), 300, false),
        ],
    );
    Board::new(vec![history, science])
}

fn fresh_session() -> GameSession {
    GameSession::new(sample_board())
}

#[test]
fn new_session_is_open_and_empty() {
    let s = fresh_session();
    assert_eq!(s.status, SessionStatus::Registration);
    assert_eq!(s.players.len(), 0);
    assert_eq!(s.active, 0);
}

#[test]
fn register_appends_player_with_zero_score() {
    let mut s = fresh_session();
    let r = s.register(Some("10.0.0.1".to_string()), "Alice".to_string());
    assert!(r.is_ok());
    assert_eq!(s.players.len(), 1);
    assert_eq!(s.players[0].name, "Alice");
    assert_eq!(s.players[0].score, 0);
}

#[test]
fn register_rejected_when_game_started() {
    let mut s = fresh_session();
    s.set_status(1);
    let r = s.register(Some("10.0.0.1".to_string()), "Bob".to_string());
    assert_eq!(r, Err(GameError::GameNotJoinable));
    assert_eq!(s.players.len(), 0);
}

#[test]
fn register_rejects_bad_names() {
    let mut s = fresh_session();
    assert_eq!(
        s.register(Some("10.0.0.1".to_string()), "".to_string()),
        Err(GameError::InvalidName)
    );
    assert_eq!(
        s.register(Some("10.0.0.1".to_string()), "two words".to_string()),
        Err(GameError::InvalidName)
    );
    assert_eq!(
        s.register(Some("10.0.0.1".to_string()), "semi;colon".to_string()),
        Err(GameError::InvalidName)
    );
    assert!(s.register(Some("10.0.0.1".to_string()), "A_b-9".to_string()).is_ok());
}

#[test]
fn register_without_address_fails() {
    let mut s = fresh_session();
    assert_eq!(
        s.register(None, "Alice".to_string()),
        Err(GameError::IdentityUnavailable)
    );
}

#[test]
fn reregistration_appends_second_entry() {
    let mut s = fresh_session();
    let addr = "10.0.0.1".to_string();
    assert!(s.register(Some(addr.clone()), "Alice".to_string()).is_ok());
    assert!(s.register(Some(addr.clone()), "Alicia".to_string()).is_ok());
    assert_eq!(s.players.len(), 2);
    assert_eq!(s.players[0].name, "Alice");
    assert_eq!(s.players[1].name, "Alicia");
    // the cache now answers with the later name
    assert_eq!(s.buzz(Some(&addr)), Ok("Alicia".to_string()));
}

#[test]
fn buzz_unregistered_is_not_registered_in_both_states() {
    let mut s = fresh_session();
    let stranger = "192.168.0.9".to_string();
    assert_eq!(s.buzz(Some(&stranger)), Err(GameError::NotRegistered));
    s.set_status(1);
    assert_eq!(s.buzz(Some(&stranger)), Err(GameError::NotRegistered));
    s.set_status(0);
    assert_eq!(s.buzz(Some(&stranger)), Err(GameError::NotRegistered));
}

#[test]
fn buzz_returns_registered_name() {
    let mut s = fresh_session();
    let addr = "10.0.0.7".to_string();
    assert!(s.register(Some(addr.clone()), "Carol".to_string()).is_ok());
    s.set_status(1);
    assert_eq!(s.buzz(Some(&addr)), Ok("Carol".to_string()));
}

#[test]
fn buzz_without_address_fails() {
    let s = fresh_session();
    assert_eq!(s.buzz(None), Err(GameError::IdentityUnavailable));
}

#[test]
fn grade_positive_adds_current_points() {
    let mut s = fresh_session();
    assert!(s.register(Some("10.0.0.1".to_string()), "Alice".to_string()).is_ok());
    s.select_active_player(0);
    assert!(s.grade(0, 0, Rating::Positive).is_ok());
    assert_eq!(s.players[0].score, 200);
}

#[test]
fn grade_negative_subtracts_current_points() {
    let mut s = fresh_session();
    assert!(s.register(Some("10.0.0.1".to_string()), "Alice".to_string()).is_ok());
    s.select_active_player(0);
    assert!(s.grade(0, 1, Rating::Negative).is_ok());
    assert_eq!(s.players[0].score, -400);
}

#[test]
fn grade_neutral_leaves_score() {
    let mut s = fresh_session();
    assert!(s.register(Some("10.0.0.1".to_string()), "Alice".to_string()).is_ok());
    s.select_active_player(0);
    assert!(s.grade(1, 0, Rating::Neutral).is_ok());
    assert_eq!(s.players[0].score, 0);
    let tries = &s.board.categories[1].answers[0].attempts;
    assert_eq!(tries.len(), 1);
    assert_eq!(tries[0].player, "Alice");
    assert_eq!(tries[0].outcome, Outcome::Neutral);
}

#[test]
fn grading_twice_scores_twice_and_records_twice() {
    let mut s = fresh_session();
    assert!(s.register(Some("10.0.0.1".to_string()), "Alice".to_string()).is_ok());
    s.select_active_player(0);
    assert!(s.grade(0, 0, Rating::Positive).is_ok());
    assert!(s.grade(0, 0, Rating::Positive).is_ok());
    assert_eq!(s.players[0].score, 400);
    assert_eq!(s.board.categories[0].answers[0].attempts.len(), 2);
}

#[test]
fn override_then_grade_uses_new_value() {
    let mut s = fresh_session();
    assert!(s.register(Some("10.0.0.1".to_string()), "Alice".to_string()).is_ok());
    s.select_active_player(0);
    assert!(s.set_answer_value(0, 0, 800).is_ok());
    assert!(s.grade(0, 0, Rating::Positive).is_ok());
    assert_eq!(s.players[0].score, 800);
    let tries = &s.board.categories[0].answers[0].attempts;
    assert_eq!(tries[0].outcome, Outcome::Correct(800));
}

#[test]
fn combined_request_grades_before_overriding() {
    let mut s = fresh_session();
    assert!(s.register(Some("10.0.0.1".to_string()), "Alice".to_string()).is_ok());
    s.select_active_player(0);
    // one request carrying both a rating and a new value: the grading
    // still uses the old 200, the override lands afterwards
    let revealed = s
        .answer_request(0, 0, Some(Rating::Positive), Some(1000))
        .unwrap();
    assert_eq!(revealed.content, "First moon landing");
    assert!(!revealed.double);
    assert_eq!(s.players[0].score, 200);
    assert_eq!(s.board.categories[0].answers[0].points, 1000);
    let tries = &s.board.categories[0].answers[0].attempts;
    assert_eq!(tries[0].outcome, Outcome::Correct(200));
    // bad indices reject the whole request and change nothing
    assert_eq!(
        s.answer_request(7, 0, Some(Rating::Positive), Some(5)).err(),
        Some(GameError::IndexOutOfRange)
    );
    assert_eq!(s.players[0].score, 200);
}

#[test]
fn grade_with_out_of_range_player_only_records() {
    let mut s = fresh_session();
    assert!(s.register(Some("10.0.0.1".to_string()), "Alice".to_string()).is_ok());
    s.select_active_player(2);
    assert!(s.grade(0, 0, Rating::Positive).is_ok());
    assert_eq!(s.players[0].score, 0);
    let tries = &s.board.categories[0].answers[0].attempts;
    assert_eq!(tries.len(), 1);
    assert_eq!(tries[0].player, "UNKNOWN No.3");
    assert_eq!(tries[0].outcome, Outcome::Correct(200));
}

#[test]
fn grade_rejects_bad_indices() {
    let mut s = fresh_session();
    assert_eq!(s.grade(2, 0, Rating::Positive), Err(GameError::IndexOutOfRange));
    assert_eq!(s.grade(0, 2, Rating::Positive), Err(GameError::IndexOutOfRange));
    assert_eq!(s.board.categories[0].answers[0].attempts.len(), 0);
}

#[test]
fn set_answer_value_rejects_bad_indices() {
    let mut s = fresh_session();
    assert_eq!(s.set_answer_value(5, 0, 100), Err(GameError::IndexOutOfRange));
    assert_eq!(s.set_answer_value(0, 5, 100), Err(GameError::IndexOutOfRange));
    assert_eq!(s.board.categories[0].answers[0].points, 200);
}

#[test]
fn reveal_answer_returns_payload_and_double_flag() {
    let s = fresh_session();
    let text = s.reveal_answer(0, 1).unwrap();
    assert_eq!(text.content, "Fall of the wall");
    assert!(text.double);
    let picture = s.reveal_answer(1, 0).unwrap();
    assert_eq!(picture.content, "planets.png");
    assert!(!picture.double);
    assert!(matches!(s.reveal_answer(9, 0), Err(GameError::IndexOutOfRange)));
}

#[test]
fn set_status_maps_codes_and_is_idempotent() {
    let mut s = fresh_session();
    s.set_status(1);
    assert_eq!(s.status, SessionStatus::BuzzerActive);
    s.set_status(7);
    assert_eq!(s.status, SessionStatus::BuzzerActive);
    s.set_status(0);
    assert_eq!(s.status, SessionStatus::Registration);
    s.set_status(0);
    assert_eq!(s.status, SessionStatus::Registration);
}

#[test]
fn reset_game_restores_everything() {
    let mut s = fresh_session();
    let addr = "10.0.0.1".to_string();
    assert!(s.register(Some(addr.clone()), "Alice".to_string()).is_ok());
    s.set_status(1);
    s.select_active_player(0);
    assert!(s.set_answer_value(0, 0, 999).is_ok());
    assert!(s.grade(0, 0, Rating::Positive).is_ok());
    s.reset_game();
    assert_eq!(s.players.len(), 0);
    assert_eq!(s.status, SessionStatus::Registration);
    assert_eq!(s.active, 0);
    assert_eq!(s.board.categories[0].answers[0].points, 200);
    assert_eq!(s.board.categories[0].answers[0].attempts.len(), 0);
    assert_eq!(s.buzz(Some(&addr)), Err(GameError::NotRegistered));
}

#[test]
fn admin_requires_loopback() {
    assert!(jeopardy::session::authorize_admin(true).is_ok());
    assert_eq!(
        jeopardy::session::authorize_admin(false),
        Err(GameError::Unauthorized)
    );
}

#[test]
fn full_round_scenario() {
    let mut s = fresh_session();
    // registration open: Alice joins
    assert!(s.register(Some("10.0.0.1".to_string()), "Alice".to_string()).is_ok());
    assert_eq!(s.players.len(), 1);
    assert_eq!(s.players[0].name, "Alice");
    assert_eq!(s.players[0].score, 0);
    // game starts: Bob is too late
    s.set_status(1);
    assert_eq!(
        s.register(Some("10.0.0.2".to_string()), "Bob".to_string()),
        Err(GameError::GameNotJoinable)
    );
    // Alice answers the 200-point question correctly
    s.select_active_player(0);
    assert!(s.grade(0, 0, Rating::Positive).is_ok());
    assert_eq!(s.players[0].score, 200);
    assert_eq!(
        s.board.categories[0].answers[0].attempts[0].outcome,
        Outcome::Correct(200)
    );
    // a second grading on the same answer, this time negative
    assert!(s.grade(0, 0, Rating::Negative).is_ok());
    assert_eq!(s.players[0].score, 0);
    assert_eq!(s.board.categories[0].answers[0].attempts.len(), 2);
}
