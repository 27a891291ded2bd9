use vstd::prelude::*;

verus! {

/// One of the two player symbols that can occupy a cell.
#[derive(Clone, Copy, PartialEq, Eq, Structural, Debug)]
pub enum Player {
    X,
    O,
}

/// The player that moves after `p`.
pub open spec fn other(p: Player) -> Player {
    match p {
        Player::X => Player::O,
        Player::O => Player::X,
    }
}

/// The symbol that shows a player on the board.
pub open spec fn symbol(p: Player) -> Seq<char> {
    match p {
        Player::X => seq!['X'],
        Player::O => seq!['O'],
    }
}

/// What a cell shows: the symbol of its player, or a blank when it is empty.
pub open spec fn cell_text(c: Option<Player>) -> Seq<char> {
    match c {
        None => seq![' '],
        Some(p) => symbol(p),
    }
}

impl Player {
    /// `X` for `true`, `O` for `false`: the reading of a boolean turn flag.
    pub fn select_player(b: bool) -> (r: Player)
        ensures
            r == (if b { Player::X } else { Player::O }),
    {
        if b {
            Player::X
        } else {
            Player::O
        }
    }

    /// The opponent of this player.
    pub fn other(self) -> (r: Player)
        ensures
            r == other(self),
    {
        match self {
            Player::X => Player::O,
            Player::O => Player::X,
        }
    }

    /// The symbol of this player, `"X"` or `"O"`.
    pub fn to_string(self) -> (r: String)
        ensures
            r@ == symbol(self),
    {
        proof {
            reveal_strlit("X");
            reveal_strlit("O");
        }
        match self {
            Player::X => "X".to_string(),
            Player::O => "O".to_string(),
        }
    }

    /// The text of a cell: the symbol of its player, or `" "` when it is empty.
    pub fn check_player(option: Option<Player>) -> (r: String)
        ensures
            r@ == cell_text(option),
    {
        proof {
            reveal_strlit(" ");
        }
        match option {
            None => " ".to_string(),
            Some(p) => p.to_string(),
        }
    }
}

} // verus!
