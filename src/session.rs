use rand::Rng;
use vstd::prelude::*;

use crate::game::{empty_grid, grid_after, move_outcome, turn_after, GameState, MoveResult, Outcome};
use crate::player::Player;

verus! {

/// The points that `o` earns `p`: one for a win of `p`, none otherwise.
pub open spec fn points(o: Outcome, p: Player) -> nat {
    if o == Outcome::Win(p) {
        1
    } else {
        0
    }
}

/// The points that the result of a cell selection earns `p`.
pub open spec fn points_of(r: Option<MoveResult>, p: Player) -> nat {
    match r {
        Some(m) => points(m.outcome, p),
        None => 0,
    }
}

/// The outcome ends the match.
pub open spec fn ends_match(o: Outcome) -> bool {
    o != Outcome::InProgress
}

/// Relies on rand::thread_rng and Rng::gen_range: a number drawn from `0..2`,
/// which is 0 or 1.
#[verifier::external_body]
fn draw_below_two() -> (r: u32)
    ensures
        r < 2,
{
    rand::thread_rng().gen_range(0..2u32)
}

/// One session: the match being played and the score of each player.
pub struct MatchController {
    game: GameState,
    score_x: u64,
    score_o: u64,
}

impl MatchController {
    /// The match being played.
    pub closed spec fn state(&self) -> GameState {
        self.game
    }

    /// The number of matches that `p` has won in this session.
    pub closed spec fn wins(&self, p: Player) -> nat {
        match p {
            Player::X => self.score_x as nat,
            Player::O => self.score_o as nat,
        }
    }

    /// The match being played is well formed.
    pub open spec fn wf(&self) -> bool {
        self.state().wf()
    }

    /// A new session: no points, an empty grid, and `X` to move.
    pub fn new() -> (s: MatchController)
        ensures
            s.wf(),
            s.state().grid() == empty_grid(),
            s.state().next() == Player::X,
            s.wins(Player::X) == 0,
            s.wins(Player::O) == 0,
    {
        MatchController { game: GameState::new(Player::X), score_x: 0, score_o: 0 }
    }

    /// Starts the session over: scores back to zero, an empty grid, `X` to move.
    pub fn reset(&mut self)
        ensures
            final(self).wf(),
            final(self).state().grid() == empty_grid(),
            final(self).state().next() == Player::X,
            final(self).wins(Player::X) == 0,
            final(self).wins(Player::O) == 0,
    {
        *self = MatchController::new();
    }

    /// The match being played.
    pub fn game(&self) -> (r: &GameState)
        ensures
            *r == self.state(),
    {
        &self.game
    }

    /// The number of matches that `p` has won in this session.
    pub fn score(&self, p: Player) -> (r: u64)
        ensures
            r == self.wins(p),
    {
        match p {
            Player::X => self.score_x,
            Player::O => self.score_o,
        }
    }

    /// Credits the result of a move: a win gives its player one point; a draw
    /// or a match in progress changes nothing.
    pub fn on_outcome(&mut self, r: MoveResult)
        requires
            r.outcome == Outcome::Win(Player::X) ==> old(self).wins(Player::X) < u64::MAX,
            r.outcome == Outcome::Win(Player::O) ==> old(self).wins(Player::O) < u64::MAX,
        ensures
            final(self).state() == old(self).state(),
            forall|p: Player| #[trigger]
                final(self).wins(p) == old(self).wins(p) + points(r.outcome, p),
    {
        match r.outcome {
            Outcome::Win(Player::X) => {
                self.score_x = self.score_x + 1;
            },
            Outcome::Win(Player::O) => {
                self.score_o = self.score_o + 1;
            },
            _ => {},
        }
    }

    /// Opens the next match on an empty grid; `coin` picks who moves first
    /// (`X` for `true`). The scores stay.
    pub fn start_next_match(&mut self, coin: bool)
        ensures
            final(self).wf(),
            final(self).state().grid() == empty_grid(),
            final(self).state().next() == (if coin { Player::X } else { Player::O }),
            forall|p: Player| #[trigger] final(self).wins(p) == old(self).wins(p),
    {
        self.game.restart(Player::select_player(coin));
    }

    /// Handles the selection of cell `index`.
    ///
    /// The move is made as `GameState::place_mark` makes it, and its result is
    /// credited to the score. When the move ends the match, the next match
    /// starts on an empty grid with its first player drawn at random.
    pub fn select_cell(&mut self, index: usize) -> (r: Option<MoveResult>)
        requires
            old(self).wf(),
            index < 9,
            old(self).wins(Player::X) < u64::MAX,
            old(self).wins(Player::O) < u64::MAX,
        ensures
            final(self).wf(),
            r == (if old(self).state().grid()[index as int].is_some() {
                None
            } else {
                Some(
                    MoveResult {
                        outcome: move_outcome(
                            old(self).state().grid(),
                            index as int,
                            old(self).state().next(),
                        ),
                        played: old(self).state().next(),
                    },
                )
            }),
            final(self).state().grid() == grid_after(
                old(self).state().grid(),
                index as int,
                old(self).state().next(),
            ),
            r.is_none() || !ends_match(r.unwrap().outcome) ==> final(self).state().next()
                == turn_after(old(self).state().grid(), index as int, old(self).state().next()),
            forall|p: Player| #[trigger]
                final(self).wins(p) == old(self).wins(p) + points_of(r, p),
    {
        let r = self.game.place_mark(index);
        match r {
            Some(m) => {
                self.on_outcome(m);
                match m.outcome {
                    Outcome::InProgress => {},
                    _ => {
                        let coin = draw_below_two() >= 1;
                        self.start_next_match(coin);
                    },
                }
            },
            None => {},
        }
        r
    }
}

} // verus!
