use tictactoe::{MatchController, MoveResult, Outcome, Player};

fn play(m: &mut MatchController, moves: &[usize]) -> Vec<Option<MoveResult>> {
    moves.iter().map(|&i| m.select_cell(i)).collect()
}

#[test]
fn new_session_has_no_points() {
    let m = MatchController::new();
    assert_eq!(m.score(Player::X), 0);
    assert_eq!(m.score(Player::O), 0);
    assert_eq!(m.game().cells(), [None; 9]);
    assert_eq!(m.game().turn(), Player::X);
}

#[test]
fn win_adds_one_point_to_winner() {
    let mut m = MatchController::new();
    let r = play(&mut m, &[0, 1, 3, 4, 6]);
    assert_eq!(r[4], Some(MoveResult { outcome: Outcome::Win(Player::X), played: Player::X }));
    assert_eq!(m.score(Player::X), 1);
    assert_eq!(m.score(Player::O), 0);
    assert_eq!(m.game().cells(), [None; 9]);
}

#[test]
fn in_progress_and_ignored_moves_keep_score() {
    let mut m = MatchController::new();
    play(&mut m, &[0, 1]);
    assert_eq!(m.select_cell(0), None);
    assert_eq!(m.score(Player::X), 0);
    assert_eq!(m.score(Player::O), 0);
    assert_eq!(m.game().turn(), Player::X);
}

#[test]
fn draw_keeps_score() {
    let mut m = MatchController::new();
    let r = play(&mut m, &[0, 1, 2, 4, 3, 5, 7, 6, 8]);
    assert_eq!(r[8], Some(MoveResult { outcome: Outcome::Draw, played: Player::X }));
    assert_eq!(m.score(Player::X), 0);
    assert_eq!(m.score(Player::O), 0);
    assert_eq!(m.game().cells(), [None; 9]);
}

#[test]
fn scores_accumulate_across_matches() {
    let mut m = MatchController::new();
    let mut x_wins = 0u64;
    let mut o_wins = 0u64;
    for _ in 0..40 {
        let first = m.game().turn();
        // the first player takes the top row while the other plays on the middle row
        let r = play(&mut m, &[0, 3, 1, 4, 2]);
        assert_eq!(r[4], Some(MoveResult { outcome: Outcome::Win(first), played: first }));
        match first {
            Player::X => x_wins += 1,
            Player::O => o_wins += 1,
        }
        assert_eq!(m.score(Player::X), x_wins);
        assert_eq!(m.score(Player::O), o_wins);
        assert_eq!(m.game().cells(), [None; 9]);
    }
    // the first player of each new match is drawn at random
    assert!(x_wins > 0 && o_wins > 0);
}

#[test]
fn on_outcome_counts_wins_only() {
    let mut m = MatchController::new();
    m.on_outcome(MoveResult { outcome: Outcome::Win(Player::O), played: Player::O });
    m.on_outcome(MoveResult { outcome: Outcome::Draw, played: Player::X });
    m.on_outcome(MoveResult { outcome: Outcome::InProgress, played: Player::X });
    m.on_outcome(MoveResult { outcome: Outcome::Win(Player::O), played: Player::O });
    assert_eq!(m.score(Player::O), 2);
    assert_eq!(m.score(Player::X), 0);
}

#[test]
fn start_next_match_uses_coin() {
    let mut m = MatchController::new();
    play(&mut m, &[4]);
    m.start_next_match(false);
    assert_eq!(m.game().cells(), [None; 9]);
    assert_eq!(m.game().turn(), Player::O);
    m.start_next_match(true);
    assert_eq!(m.game().turn(), Player::X);
}

#[test]
fn reset_clears_scores() {
    let mut m = MatchController::new();
    play(&mut m, &[0, 1, 3, 4, 6]);
    play(&mut m, &[4]);
    m.reset();
    assert_eq!(m.score(Player::X), 0);
    assert_eq!(m.score(Player::O), 0);
    assert_eq!(m.game().cells(), [None; 9]);
    assert_eq!(m.game().turn(), Player::X);
}
