use jeopardy::board::{Answer, Board, Category, Rating, Task};
use jeopardy::name::is_valid_name;
use jeopardy::identity::IdentityCache;
use jeopardy::session::GameSession;
use jeopardy::text::{i64_to_dec, u64_to_dec};

fn small_board() -> Board {
    let only = Category::new(
        "Movies".to_string(),
        vec![
            Answer::new(Task::Text("A space odyssey".to_string()), 200, false),
            Answer::new(Task::Text("A shark".to_string()), 500, false),
        ],
    );
    Board::new(vec![only])
}

#[test]
fn decimal_rendering_is_exact() {
    assert_eq!(u64_to_dec(0), "0");
    assert_eq!(u64_to_dec(7), "7");
    assert_eq!(u64_to_dec(42), "42");
    assert_eq!(u64_to_dec(65535), "65535");
    assert_eq!(u64_to_dec(1000), "1000");
    assert_eq!(i64_to_dec(0), "0");
    assert_eq!(i64_to_dec(-1), "-1");
    assert_eq!(i64_to_dec(-400), "-400");
    assert_eq!(i64_to_dec(1234), "1234");
    assert_eq!(i64_to_dec(i64::MIN), "-9223372036854775808");
    assert_eq!(i64_to_dec(i64::MAX), "9223372036854775807");
}

#[test]
fn name_allow_list() {
    assert!(is_valid_name("Alice"));
    assert!(is_valid_name("a"));
    assert!(is_valid_name("A_b-9"));
    assert!(is_valid_name("0123456789"));
    assert!(!is_valid_name(""));
    assert!(!is_valid_name("two words"));
    assert!(!is_valid_name("Zoë"));
    assert!(!is_valid_name("semi;colon"));
    assert!(!is_valid_name("tab\there"));
}

#[test]
fn snapshot_shows_board_players_and_status() {
    let mut s = GameSession::new(small_board());
    assert!(s.register(Some("10.0.0.1".to_string()), "Alice".to_string()).is_ok());
    let v = s.render_admin_snapshot();
    assert_eq!(v.categories.len(), 1);
    assert_eq!(v.categories[0].name, "Movies");
    assert_eq!(v.categories[0].cells.len(), 2);
    assert_eq!(v.categories[0].cells[0].points_label, "200");
    assert_eq!(v.categories[0].cells[1].points_label, "500");
    assert_eq!(v.players, vec!["Alice: 0".to_string()]);
    assert_eq!(v.status_code, 0);
    s.set_status(3);
    assert_eq!(s.render_admin_snapshot().status_code, 1);
}

#[test]
fn snapshot_attempt_lines_match_gradings() {
    let mut s = GameSession::new(small_board());
    assert!(s.register(Some("10.0.0.1".to_string()), "Alice".to_string()).is_ok());
    s.set_status(1);
    s.select_active_player(0);
    assert!(s.grade(0, 0, Rating::Positive).is_ok());
    assert!(s.grade(0, 0, Rating::Negative).is_ok());
    let v = s.render_admin_snapshot();
    // exactly two lines for the graded answer, none for the other
    assert_eq!(
        v.categories[0].cells[0].attempt_lines,
        vec!["+ Alice (200)".to_string(), "- Alice (200)".to_string()]
    );
    assert_eq!(v.categories[0].cells[1].attempt_lines.len(), 0);
    assert_eq!(v.players, vec!["Alice: 0".to_string()]);
}

#[test]
fn snapshot_neutral_line_and_negative_score() {
    let mut s = GameSession::new(small_board());
    assert!(s.register(Some("10.0.0.1".to_string()), "Bob".to_string()).is_ok());
    s.set_status(1);
    s.select_active_player(0);
    assert!(s.grade(0, 1, Rating::Negative).is_ok());
    assert!(s.grade(0, 1, Rating::Neutral).is_ok());
    let v = s.render_admin_snapshot();
    assert_eq!(
        v.categories[0].cells[1].attempt_lines,
        vec!["- Bob (500)".to_string(), "0 Bob".to_string()]
    );
    assert_eq!(v.players, vec!["Bob: -500".to_string()]);
}

#[test]
fn snapshot_placeholder_label_for_unknown_player() {
    let mut s = GameSession::new(small_board());
    s.set_status(1);
    s.select_active_player(4);
    assert!(s.grade(0, 0, Rating::Positive).is_ok());
    let v = s.render_admin_snapshot();
    assert_eq!(
        v.categories[0].cells[0].attempt_lines,
        vec!["+ UNKNOWN No.5 (200)".to_string()]
    );
    assert_eq!(v.players.len(), 0);
}

#[test]
fn identity_cache_overwrites_and_misses() {
    let mut cache = IdentityCache::new();
    assert_eq!(cache.lookup(&"10.0.0.1".to_string()), None);
    cache.insert("10.0.0.1".to_string(), "Alice".to_string());
    cache.insert("10.0.0.2".to_string(), "Bob".to_string());
    assert_eq!(cache.lookup(&"10.0.0.1".to_string()), Some("Alice".to_string()));
    cache.insert("10.0.0.1".to_string(), "Alicia".to_string());
    assert_eq!(cache.lookup(&"10.0.0.1".to_string()), Some("Alicia".to_string()));
    assert_eq!(cache.lookup(&"10.0.0.2".to_string()), Some("Bob".to_string()));
    cache.clear();
    assert_eq!(cache.lookup(&"10.0.0.2".to_string()), None);
}
