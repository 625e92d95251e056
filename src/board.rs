//! The boards of panes that the viewer can lay out.

use vstd::prelude::*;

verus! {

/// A named arrangement of panes.
#[derive(Debug, Clone, Copy, PartialEq, Eq, Structural)]
pub enum Board {
    Overview,
    Update,
}

impl Board {
    pub open spec fn label(self) -> Seq<char> {
        match self {
            Board::Overview => "Overview"@,
            Board::Update => "Update"@,
        }
    }

    /// Every board, in the order in which they are offered.
    pub fn all() -> (r: Vec<Board>)
        ensures
            r@ == seq![Board::Overview, Board::Update],
    {
        let r = vec![Board::Overview, Board::Update];
        assert(r@ =~= seq![Board::Overview, Board::Update]);
        r
    }

    /// The board's name.
    pub fn to_string(self) -> (r: String)
        ensures
            r@ == self.label(),
    {
        match self {
            Board::Overview => "Overview".to_owned(),
            Board::Update => "Update".to_owned(),
        }
    }
}

} // verus!
