use vstd::prelude::*;

use crate::board;
use crate::board::{opponent, player_token, Ownership, Player, Token};
use crate::coord;
use crate::coord::{cell_of, global_index, region_of};
use crate::measure::MousePosition;

verus! {

/// The mouse buttons that the game tells apart.
#[derive(Clone, Copy, Debug, PartialEq, Eq, Structural)]
pub enum MouseButton {
    Left,
    Right,
    Other,
}

/// A game in progress: the board, the side to move, the sub-board that the
/// next move is bound to (`None`: any undecided one), the position under the
/// pointer, and where the pending click was pressed.
pub struct MainState {
    pub board_state: board::Global,
    pub current_player: Player,
    pub active_region: Option<coord::Local>,
    pub active_hover: MousePosition,
    pub mouse_down_position: MousePosition,
}

/// `region` is the active region, or no region is active.
pub open spec fn region_is_active_spec(active: Option<coord::Local>, region: coord::Local) -> bool {
    active is None || active == Some(region)
}

/// A move at `position` is legal: the active region, if one is set, is the
/// position's sub-board; that sub-board is undecided; and the cell is clear.
pub open spec fn is_legal(
    board: board::Global,
    active: Option<coord::Local>,
    position: coord::Global,
) -> bool {
    &&& (active matches Some(r) ==> r@ == region_of(position@))
    &&& board@[region_of(position@) as int].total == Ownership::Undecided
    &&& board@[region_of(position@) as int]@[cell_of(position@) as int] == Token::Clear
}

/// Whether `region` is the active region, or no region is active.
pub fn region_is_active(active: Option<coord::Local>, region: coord::Local) -> (r: bool)
    ensures
        r == region_is_active_spec(active, region),
{
    match active {
        None => true,
        Some(a) => a == region,
    }
}

impl MainState {
    /// Every ownership on the board follows from the cells.
    pub open spec fn wf(&self) -> bool {
        self.board_state.is_consistent()
    }

    /// The game takes a move at `position`: the move is legal and the board
    /// as a whole is still undecided. A decided board ends the game, and no
    /// move is taken after it. This also keeps play away from a board where
    /// both sides hold a line of sub-boards, which the win rule assumes never
    /// happens (see `board::lemma_move_is_unambiguous`).
    pub open spec fn accepts(&self, position: coord::Global) -> bool {
        &&& self.board_state.owner() == Ownership::Undecided
        &&& is_legal(self.board_state, self.active_region, position)
    }

    /// `new` follows from this state once the side to move plays at
    /// `position`: the token is placed and every ownership evaluated again,
    /// the turn passes, and the next move is bound to the sub-board named by
    /// the cell played if that sub-board is undecided, else to none.
    pub open spec fn played(&self, new: MainState, position: coord::Global) -> bool {
        &&& self.board_state.placed(
            new.board_state,
            position,
            player_token(self.current_player),
        )
        &&& new.current_player == opponent(self.current_player)
        &&& if new.board_state@[cell_of(position@) as int].total == Ownership::Undecided {
            new.active_region matches Some(r) && r@ == cell_of(position@)
        } else {
            new.active_region is None
        }
    }

    /// The board, the side to move and the active region are those of `other`.
    pub open spec fn same_game(&self, other: MainState) -> bool {
        &&& self.board_state == other.board_state
        &&& self.current_player == other.current_player
        &&& self.active_region == other.active_region
    }

    /// A new game: an empty board, `Cross` to move anywhere, no click pending.
    pub fn new() -> (r: MainState)
        ensures
            r.wf(),
            r.board_state@.len() == 9,
            forall|i: int|
                0 <= i < 9 ==> (#[trigger] r.board_state@[i])@ == Seq::new(9, |j: int| Token::Clear)
                    && r.board_state@[i].total == Ownership::Undecided,
            r.board_state.owner() == Ownership::Undecided,
            r.current_player == Player::Cross,
            r.active_region is None,
            r.active_hover == MousePosition::Outside,
            r.mouse_down_position == MousePosition::Outside,
    {
        let board_state = board::Global::new();
        let current_player = Player::Cross;
        MainState {
            board_state,
            current_player,
            active_region: None,
            active_hover: MousePosition::Outside,
            mouse_down_position: MousePosition::Outside,
        }
    }

    /// Whether the next move may go into `region`: it is active and still
    /// undecided.
    pub fn can_place_in_region(&self, region: coord::Local) -> (r: bool)
        ensures
            r == (region_is_active_spec(self.active_region, region)
                && self.board_state@[region@ as int].total == Ownership::Undecided),
    {
        let is_active = region_is_active(self.active_region, region);
        let still_has_space = self.board_state.region(region).total == Ownership::Undecided;
        is_active && still_has_space
    }

    /// Whether a move at `position` is legal.
    pub fn is_legal_move(&self, position: coord::Global) -> (r: bool)
        ensures
            r == is_legal(self.board_state, self.active_region, position),
    {
        let region = position.get_region();
        proof {
            if let Some(a) = self.active_region {
                coord::lemma_local_view_injective(a, region);
            }
        }
        self.can_place_in_region(region) && self.board_state.at(position) == Token::Clear
    }

    /// Plays the side to move at `position` if the game takes that move;
    /// otherwise changes nothing.
    pub fn on_try_place_token(&mut self, position: coord::Global)
        requires
            old(self).wf(),
        ensures
            final(self).wf(),
            old(self).accepts(position) ==> old(self).played(*final(self), position),
            !old(self).accepts(position) ==> *final(self) == *old(self),
            final(self).active_hover == old(self).active_hover,
            final(self).mouse_down_position == old(self).mouse_down_position,
    {
        if self.board_state.total() == Ownership::Undecided && self.is_legal_move(position) {
            self.on_place_token(position);
        }
    }

    /// Plays the side to move at `position`, passes the turn and sets the
    /// active region for the next move.
    pub fn on_place_token(&mut self, position: coord::Global)
        requires
            old(self).wf(),
            old(self).accepts(position),
        ensures
            final(self).wf(),
            old(self).played(*final(self), position),
            final(self).board_state@[cell_of(position@) as int].total == Ownership::Undecided
                ==> final(self).active_region is Some && final(self).active_region->0@ == cell_of(
                position@,
            ),
            final(self).board_state@[cell_of(position@) as int].total != Ownership::Undecided
                ==> final(self).active_region == None::<coord::Local>,
            final(self).active_hover == old(self).active_hover,
            final(self).mouse_down_position == old(self).mouse_down_position,
    {
        let cell = position.get_local();
        // Brings the fact that the position's sub-board index is below 9.
        let _ = position.get_region().index();
        let token = Token::from(self.current_player);
        proof {
            board::lemma_move_is_unambiguous(self.board_state, position, self.current_player);
        }
        self.board_state.place_token(position, token);
        self.current_player = self.current_player.other();
        if self.board_state.region(cell).total == Ownership::Undecided {
            self.active_region = Some(cell);
        } else {
            self.active_region = None;
        }
    }

    /// A button is pressed with the pointer at `click`: the left button
    /// records it as the pending click, the right one cancels any pending
    /// click, others change nothing.
    pub fn mouse_button_down_event(&mut self, button: MouseButton, click: MousePosition)
        ensures
            *final(self) == (MainState {
                mouse_down_position: match button {
                    MouseButton::Left => click,
                    MouseButton::Right => MousePosition::Outside,
                    MouseButton::Other => old(self).mouse_down_position,
                },
                ..*old(self)
            }),
    {
        match button {
            MouseButton::Left => {
                self.mouse_down_position = click;
            },
            MouseButton::Right => {
                self.mouse_down_position = MousePosition::Outside;
            },
            MouseButton::Other => {},
        }
    }

    /// A button is released with the pointer at `click`. If that is where
    /// the pending click was pressed and it is a cell, a move there is
    /// tried; any other release cancels. Either way no click is pending
    /// afterwards.
    pub fn mouse_button_up_event(&mut self, click: MousePosition)
        requires
            old(self).wf(),
        ensures
            final(self).wf(),
            final(self).mouse_down_position == MousePosition::Outside,
            final(self).active_hover == old(self).active_hover,
            (click matches MousePosition::Local(g) ==> (click == old(self).mouse_down_position
                ==> if old(self).accepts(g) {
                old(self).played(*final(self), g)
            } else {
                final(self).same_game(*old(self))
            })),
            !(click == old(self).mouse_down_position && click is Local) ==> final(self).same_game(
                *old(self),
            ),
    {
        if click != self.mouse_down_position {
            self.mouse_down_position = MousePosition::Outside;
            return;
        }
        if let MousePosition::Local(position) = click {
            self.on_try_place_token(position);
        }
        self.mouse_down_position = MousePosition::Outside;
    }

    /// What the cell `local` of sub-board `region` shows, and whether it is
    /// a preview: a clear cell where the pending click was pressed previews
    /// the token of the side to move; any other cell shows its own token.
    pub fn shown_token(&self, region: coord::Local, local: coord::Local) -> (r: (Token, bool))
        ensures
            ({
                let t = self.board_state@[region@ as int]@[local@ as int];
                if t == Token::Clear && (self.mouse_down_position matches MousePosition::Local(g)
                    && g@ == global_index(region@, local@)) {
                    r == (player_token(self.current_player), true)
                } else {
                    r == (t, false)
                }
            }),
    {
        let token = self.board_state.region(region).get(local);
        let here = coord::Global::new(region, local);
        proof {
            if let MousePosition::Local(g) = self.mouse_down_position {
                coord::lemma_global_view_injective(g, here);
            }
        }
        if token == Token::Clear && self.mouse_down_position == MousePosition::Local(here) {
            (Token::from(self.current_player), true)
        } else {
            (token, false)
        }
    }
}

} // verus!
