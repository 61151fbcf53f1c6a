use game_kernel::engine::{join, move_player};
use game_kernel::score::{calculate_winner, ranked_scores};
use game_kernel::state::create_initial_state;
use game_kernel::types::Direction;

#[test]
fn no_players_no_winner() {
    let s = create_initial_state(15, 15).unwrap();
    assert_eq!(calculate_winner(&s), None);
    assert_eq!(ranked_scores(&s), vec![]);
}

#[test]
fn exact_tie_reports_no_unique_winner() {
    let mut s = create_initial_state(15, 15).unwrap();
    join(&mut s).unwrap();
    join(&mut s).unwrap();
    // Both players own exactly their starting cell.
    assert_eq!(s.count_owned_by(1), 1);
    assert_eq!(s.count_owned_by(2), 1);
    assert_eq!(calculate_winner(&s), None);
    // The scoreboard still ranks them, tied scores by ascending id.
    assert_eq!(ranked_scores(&s), vec![(1, 1), (2, 1)]);
}

#[test]
fn strict_maximum_wins() {
    let mut s = create_initial_state(3, 2).unwrap();
    join(&mut s).unwrap();
    join(&mut s).unwrap();
    move_player(&mut s, 1, Direction::Left).unwrap();
    move_player(&mut s, 2, Direction::Left).unwrap();
    move_player(&mut s, 1, Direction::Right).unwrap();
    move_player(&mut s, 1, Direction::Right).unwrap();
    move_player(&mut s, 1, Direction::Down).unwrap();
    // A owns four cells, B owns two.
    assert_eq!(calculate_winner(&s), Some(1));
    assert_eq!(ranked_scores(&s), vec![(1, 4), (2, 2)]);
}

#[test]
fn scoreboard_orders_by_score_then_id() {
    let mut s = create_initial_state(15, 15).unwrap();
    join(&mut s).unwrap();
    join(&mut s).unwrap();
    move_player(&mut s, 2, Direction::Up).unwrap();
    move_player(&mut s, 2, Direction::Up).unwrap();
    // B owns three cells, A one.
    assert_eq!(ranked_scores(&s), vec![(2, 3), (1, 1)]);
    assert_eq!(calculate_winner(&s), Some(2));
}
