use vstd::prelude::*;

use crate::coord;
use crate::coord::{cell_of, region_of};

verus! {

/// What a cell of a sub-board holds.
#[derive(Clone, Copy, Debug, PartialEq, Eq, Structural)]
pub enum Token {
    Clear,
    Circle,
    Cross,
}

/// One of the two sides.
#[derive(Clone, Copy, Debug, PartialEq, Eq, Structural)]
pub enum Player {
    Circle,
    Cross,
}

/// Whether a 3×3 grid (a sub-board, or the whole board) is decided, and how.
#[derive(Clone, Copy, Debug, PartialEq, Eq, Structural)]
pub enum Ownership {
    Undecided,
    Circle,
    Cross,
    Draw,
}

/// The side whose mark a token is, if any.
pub open spec fn token_mark(t: Token) -> Option<Player> {
    match t {
        Token::Clear => None,
        Token::Circle => Some(Player::Circle),
        Token::Cross => Some(Player::Cross),
    }
}

/// The side that a decided grid belongs to, if any; a draw belongs to nobody.
pub open spec fn ownership_mark(o: Ownership) -> Option<Player> {
    match o {
        Ownership::Circle => Some(Player::Circle),
        Ownership::Cross => Some(Player::Cross),
        _ => None,
    }
}

/// The cells `a`, `b` and `c` of a grid all carry the mark of `p`.
pub open spec fn holds_line(m: Seq<Option<Player>>, p: Player, a: int, b: int, c: int) -> bool {
    &&& m[a] == Some(p)
    &&& m[b] == Some(p)
    &&& m[c] == Some(p)
}

/// `p` holds a row, a column or a diagonal of the 3×3 grid of marks `m`
/// (indexed `3 * y + x`).
pub open spec fn has_triple(m: Seq<Option<Player>>, p: Player) -> bool {
    ||| holds_line(m, p, 0, 1, 2)
    ||| holds_line(m, p, 3, 4, 5)
    ||| holds_line(m, p, 6, 7, 8)
    ||| holds_line(m, p, 0, 3, 6)
    ||| holds_line(m, p, 1, 4, 7)
    ||| holds_line(m, p, 2, 5, 8)
    ||| holds_line(m, p, 0, 4, 8)
    ||| holds_line(m, p, 2, 4, 6)
}

/// Both sides hold a line of `m`. Alternating play never leads there; the
/// rules below are only applied to grids where this is false.
pub open spec fn contested(m: Seq<Option<Player>>) -> bool {
    has_triple(m, Player::Circle) && has_triple(m, Player::Cross)
}

/// The result of a 3×3 grid of marks: the side that holds a line if there
/// is one, else a draw if every cell is `full`, else undecided. Play never
/// gives both sides a line; a grid filled at random may, and is then
/// counted for `Circle`.
pub open spec fn grid_outcome(m: Seq<Option<Player>>, full: bool) -> Ownership {
    if has_triple(m, Player::Circle) {
        Ownership::Circle
    } else if has_triple(m, Player::Cross) {
        Ownership::Cross
    } else if full {
        Ownership::Draw
    } else {
        Ownership::Undecided
    }
}

/// The marks of the nine cells of a sub-board.
pub open spec fn token_marks(cells: Seq<Token>) -> Seq<Option<Player>> {
    cells.map_values(|t: Token| token_mark(t))
}

/// No cell of the sub-board is clear.
pub open spec fn cells_full(cells: Seq<Token>) -> bool {
    forall|i: int| 0 <= i < 9 ==> cells[i] != Token::Clear
}

/// The ownership of a sub-board with these nine cells.
pub open spec fn sub_board_outcome(cells: Seq<Token>) -> Ownership {
    grid_outcome(token_marks(cells), cells_full(cells))
}

/// The marks of the nine sub-boards, given their ownerships.
pub open spec fn ownership_marks(owners: Seq<Ownership>) -> Seq<Option<Player>> {
    owners.map_values(|o: Ownership| ownership_mark(o))
}

/// Every sub-board is decided (won or drawn).
pub open spec fn owners_full(owners: Seq<Ownership>) -> bool {
    forall|i: int| 0 <= i < 9 ==> owners[i] != Ownership::Undecided
}

/// The ownership of the whole board, given those of its nine sub-boards.
pub open spec fn board_outcome(owners: Seq<Ownership>) -> Ownership {
    grid_outcome(ownership_marks(owners), owners_full(owners))
}

/// The other side.
pub open spec fn opponent(p: Player) -> Player {
    match p {
        Player::Circle => Player::Cross,
        Player::Cross => Player::Circle,
    }
}

/// The ownership of a grid won by `p`.
pub open spec fn owned_by(p: Player) -> Ownership {
    match p {
        Player::Circle => Ownership::Circle,
        Player::Cross => Ownership::Cross,
    }
}

/// The token that a random draw gives: `Cross` for `true`, `Circle` for
/// `false`.
pub open spec fn drawn_token(b: bool) -> Token {
    if b {
        Token::Cross
    } else {
        Token::Circle
    }
}

/// The token that a side places.
pub open spec fn player_token(p: Player) -> Token {
    match p {
        Player::Circle => Token::Circle,
        Player::Cross => Token::Cross,
    }
}

impl Token {
    fn mark(self) -> (r: Option<Player>)
        ensures
            r == token_mark(self),
    {
        match self {
            Token::Clear => None,
            Token::Circle => Some(Player::Circle),
            Token::Cross => Some(Player::Cross),
        }
    }

    /// The character that shows this token: a blank, `O` or `X`.
    pub fn symbol(self) -> (r: char)
        ensures
            r == match self {
                Token::Clear => ' ',
                Token::Circle => 'O',
                Token::Cross => 'X',
            },
    {
        match self {
            Token::Clear => ' ',
            Token::Circle => 'O',
            Token::Cross => 'X',
        }
    }
}

impl Ownership {
    fn mark(self) -> (r: Option<Player>)
        ensures
            r == ownership_mark(self),
    {
        match self {
            Ownership::Circle => Some(Player::Circle),
            Ownership::Cross => Some(Player::Cross),
            _ => None,
        }
    }

    /// The character that shows this ownership: a blank, `O`, `X` or `-`.
    pub fn symbol(self) -> (r: char)
        ensures
            r == match self {
                Ownership::Undecided => ' ',
                Ownership::Circle => 'O',
                Ownership::Cross => 'X',
                Ownership::Draw => '-',
            },
    {
        match self {
            Ownership::Undecided => ' ',
            Ownership::Circle => 'O',
            Ownership::Cross => 'X',
            Ownership::Draw => '-',
        }
    }
}

impl Player {
    /// The side that moves after this one.
    pub fn other(self) -> (r: Player)
        ensures
            r == opponent(self),
    {
        match self {
            Player::Circle => Player::Cross,
            Player::Cross => Player::Circle,
        }
    }
}

impl From<Ownership> for Token {
    fn from(owner: Ownership) -> (r: Token) {
        match owner {
            Ownership::Undecided => Token::Clear,
            Ownership::Circle => Token::Circle,
            Ownership::Cross => Token::Cross,
            Ownership::Draw => Token::Clear,
        }
    }
}

impl vstd::std_specs::convert::FromSpecImpl<Ownership> for Token {
    open spec fn obeys_from_spec() -> bool {
        true
    }

    open spec fn from_spec(owner: Ownership) -> Token {
        match owner {
            Ownership::Circle => Token::Circle,
            Ownership::Cross => Token::Cross,
            _ => Token::Clear,
        }
    }
}

impl From<Player> for Token {
    fn from(player: Player) -> (r: Token) {
        match player {
            Player::Circle => Token::Circle,
            Player::Cross => Token::Cross,
        }
    }
}

impl vstd::std_specs::convert::FromSpecImpl<Player> for Token {
    open spec fn obeys_from_spec() -> bool {
        true
    }

    open spec fn from_spec(player: Player) -> Token {
        player_token(player)
    }
}

impl From<Token> for Ownership {
    fn from(token: Token) -> (r: Ownership) {
        match token {
            Token::Circle => Ownership::Circle,
            Token::Cross => Ownership::Cross,
            Token::Clear => Ownership::Undecided,
        }
    }
}

impl vstd::std_specs::convert::FromSpecImpl<Token> for Ownership {
    open spec fn obeys_from_spec() -> bool {
        true
    }

    open spec fn from_spec(token: Token) -> Ownership {
        match token {
            Token::Circle => Ownership::Circle,
            Token::Cross => Ownership::Cross,
            Token::Clear => Ownership::Undecided,
        }
    }
}

fn is_mark_of(m: Option<Player>, p: Player) -> (r: bool)
    ensures
        r == (m == Some(p)),
{
    match (m, p) {
        (Some(Player::Circle), Player::Circle) => true,
        (Some(Player::Cross), Player::Cross) => true,
        _ => false,
    }
}

fn holds_line_exec(m: &[Option<Player>; 9], p: Player, a: usize, b: usize, c: usize) -> (r: bool)
    requires
        a < 9,
        b < 9,
        c < 9,
    ensures
        r == holds_line(m@, p, a as int, b as int, c as int),
{
    is_mark_of(m[a], p) && is_mark_of(m[b], p) && is_mark_of(m[c], p)
}

fn has_triple_exec(m: &[Option<Player>; 9], p: Player) -> (r: bool)
    ensures
        r == has_triple(m@, p),
{
    holds_line_exec(m, p, 0, 1, 2) || holds_line_exec(m, p, 3, 4, 5) || holds_line_exec(
        m,
        p,
        6,
        7,
        8,
    ) || holds_line_exec(m, p, 0, 3, 6) || holds_line_exec(m, p, 1, 4, 7) || holds_line_exec(
        m,
        p,
        2,
        5,
        8,
    ) || holds_line_exec(m, p, 0, 4, 8) || holds_line_exec(m, p, 2, 4, 6)
}

/// Applies the win and draw rule to a grid of marks.
fn evaluate(m: &[Option<Player>; 9], full: bool) -> (r: Ownership)
    ensures
        r == grid_outcome(m@, full),
{
    if has_triple_exec(m, Player::Circle) {
        Ownership::Circle
    } else if has_triple_exec(m, Player::Cross) {
        Ownership::Cross
    } else if full {
        Ownership::Draw
    } else {
        Ownership::Undecided
    }
}

/// A sub-board: nine cells, indexed `3 * y + x`, and the ownership last
/// computed from them. Its view is the sequence of its nine cells.
#[derive(Clone, Copy, Debug)]
pub struct Local {
    pub entries: [Token; 9],
    pub total: Ownership,
}

/// Nine random booleans.
fn draw_nine() -> [bool; 9] {
    let mut draws = [false; 9];
    let mut i: usize = 0;
    while i < 9
        invariant
            i <= 9,
        decreases 9 - i,
    {
        draws[i] = rand::random::<bool>();
        i = i + 1;
    }
    draws
}

/// A random value of any type that rand's `Standard` distribution samples.
/// Relies on `rand::random`, which draws from the thread-local generator;
/// nothing is promised of the value.
pub assume_specification<T>[ rand::random::<T> ]() -> (r: T)
    where
        rand::distributions::Standard: rand::distributions::Distribution<T>,
;

impl View for Local {
    type V = Seq<Token>;

    open spec fn view(&self) -> Seq<Token> {
        self.entries@
    }
}

impl Local {
    /// An empty, undecided sub-board.
    pub fn new() -> (r: Local)
        ensures
            r@ == Seq::new(9, |i: int| Token::Clear),
            r.total == Ownership::Undecided,
    {
        let entries = [Token::Clear; 9];
        let total = Ownership::Undecided;
        let r = Local { entries, total };
        assert(r@ =~= Seq::new(9, |i: int| Token::Clear));
        r
    }

    /// The sub-board whose cell `i` holds `Cross` where `draws[i]` is true
    /// and `Circle` where it is false, with its ownership evaluated.
    pub fn from_draws(draws: [bool; 9]) -> (r: Local)
        ensures
            r@.len() == 9,
            forall|i: int| 0 <= i < 9 ==> #[trigger] r@[i] == drawn_token(draws@[i]),
            r.total == sub_board_outcome(r@),
    {
        let mut entries = [Token::Clear; 9];
        let mut i: usize = 0;
        while i < 9
            invariant
                i <= 9,
                forall|k: int| 0 <= k < i ==> #[trigger] entries@[k] == drawn_token(draws@[k]),
            decreases 9 - i,
        {
            entries[i] = if draws[i] {
                Token::Cross
            } else {
                Token::Circle
            };
            i = i + 1;
        }
        let mut r = Local { entries, total: Ownership::Undecided };
        r.total = r.evaluate_cells();
        r
    }

    /// A sub-board whose every cell holds a random mark, with its ownership
    /// evaluated: a side's line or a draw.
    pub fn random() -> (r: Local)
        ensures
            r@.len() == 9,
            cells_full(r@),
            r.total == sub_board_outcome(r@),
    {
        Self::from_draws(draw_nine())
    }

    /// The token at a cell.
    pub fn get(&self, position: coord::Local) -> (r: Token)
        ensures
            r == self@[position@ as int],
    {
        self.entries[position.index()]
    }

    fn is_full(&self) -> (r: bool)
        ensures
            r == cells_full(self@),
    {
        let mut i: usize = 0;
        while i < 9
            invariant
                i <= 9,
                forall|k: int| 0 <= k < i ==> self@[k] != Token::Clear,
            decreases 9 - i,
        {
            if self.entries[i] == Token::Clear {
                return false;
            }
            i = i + 1;
        }
        true
    }

    /// The ownership of the sub-board by the win and draw rule.
    fn evaluate_cells(&self) -> (r: Ownership)
        ensures
            r == sub_board_outcome(self@),
    {
        let m = [
            self.entries[0].mark(),
            self.entries[1].mark(),
            self.entries[2].mark(),
            self.entries[3].mark(),
            self.entries[4].mark(),
            self.entries[5].mark(),
            self.entries[6].mark(),
            self.entries[7].mark(),
            self.entries[8].mark(),
        ];
        assert(m@ =~= token_marks(self@));
        let full = self.is_full();
        evaluate(&m, full)
    }

    /// Writes `token` at `position` and nothing else: the ownership is left
    /// as it was.
    pub fn set(&mut self, position: coord::Local, token: Token)
        ensures
            final(self)@ == old(self)@.update(position@ as int, token),
            final(self).total == old(self).total,
    {
        self.entries[position.index()] = token;
    }

    /// Writes `token` at `position` and recomputes the ownership of the
    /// sub-board from its nine cells. No legality is checked here; the cells
    /// after the write must not hold a line of each side.
    pub fn place_token(&mut self, position: coord::Local, token: Token)
        requires
            !contested(token_marks(old(self)@.update(position@ as int, token))),
        ensures
            final(self)@ == old(self)@.update(position@ as int, token),
            final(self).total == sub_board_outcome(final(self)@),
    {
        self.entries[position.index()] = token;
        self.total = self.evaluate_cells();
    }
}

/// The whole board: nine sub-boards, indexed like the cells of a sub-board,
/// and the ownership of the board last computed from theirs. Its view is the
/// sequence of its nine sub-boards.
#[derive(Clone, Copy, Debug)]
pub struct Global {
    entries: [Local; 9],
    total: Ownership,
}

/// The ownerships of a sequence of sub-boards.
pub open spec fn totals(regions: Seq<Local>) -> Seq<Ownership> {
    regions.map_values(|l: Local| l.total)
}

impl View for Global {
    type V = Seq<Local>;

    closed spec fn view(&self) -> Seq<Local> {
        self.entries@
    }
}

impl Global {
    /// The ownership of the whole board as last computed.
    pub closed spec fn owner(&self) -> Ownership {
        self.total
    }

    /// The board always has nine sub-boards.
    pub proof fn lemma_nine_regions(self)
        ensures
            self@.len() == 9,
    {
    }

    /// The cells of the sub-board of `position` once `token` is written at it.
    pub open spec fn cells_after(&self, position: coord::Global, token: Token) -> Seq<Token> {
        self@[region_of(position@) as int]@.update(cell_of(position@) as int, token)
    }

    /// The ownerships of the nine sub-boards once `token` is written at
    /// `position` and its sub-board is evaluated again.
    pub open spec fn totals_after(&self, position: coord::Global, token: Token) -> Seq<Ownership> {
        totals(self@).update(
            region_of(position@) as int,
            sub_board_outcome(self.cells_after(position, token)),
        )
    }

    /// Writing `token` at `position` leaves no grid, neither its sub-board
    /// nor the whole board, with a line held by each side.
    pub open spec fn placement_is_unambiguous(&self, position: coord::Global, token: Token) -> bool {
        &&& !contested(token_marks(self.cells_after(position, token)))
        &&& !contested(ownership_marks(self.totals_after(position, token)))
    }

    /// `new` is this board once `token` is written at `position` and the
    /// ownerships are evaluated again: the other sub-boards are untouched, the
    /// written one holds the new cells and their ownership, and the board's
    /// ownership follows from the sub-boards'.
    pub open spec fn placed(&self, new: Global, position: coord::Global, token: Token) -> bool {
        &&& self@.len() == 9
        &&& new@.len() == 9
        &&& forall|i: int|
            0 <= i < 9 && i != region_of(position@) ==> (#[trigger] new@[i]) == self@[i]
        &&& new@[region_of(position@) as int]@ == self.cells_after(position, token)
        &&& new@[region_of(position@) as int].total == sub_board_outcome(
            self.cells_after(position, token),
        )
        &&& totals(new@) == self.totals_after(position, token)
        &&& new.owner() == board_outcome(totals(new@))
    }

    /// Each sub-board's ownership follows from its cells, and the board's
    /// from the sub-boards' ownerships.
    pub open spec fn is_consistent(&self) -> bool {
        &&& self@.len() == 9
        &&& forall|i: int| 0 <= i < 9 ==> (#[trigger] self@[i]).total == sub_board_outcome(self@[i]@)
        &&& self.owner() == board_outcome(totals(self@))
    }

    /// An empty board: every cell clear, every grid undecided.
    pub fn new() -> (r: Global)
        ensures
            r@.len() == 9,
            forall|i: int|
                0 <= i < 9 ==> (#[trigger] r@[i])@ == Seq::new(9, |j: int| Token::Clear)
                    && r@[i].total == Ownership::Undecided,
            r.owner() == Ownership::Undecided,
            r.is_consistent(),
    {
        let entries = [
            Local::new(),
            Local::new(),
            Local::new(),
            Local::new(),
            Local::new(),
            Local::new(),
            Local::new(),
            Local::new(),
            Local::new(),
        ];
        let total = Ownership::Undecided;
        let r = Global { entries, total };
        assert forall|i: int| 0 <= i < 9 implies (#[trigger] r@[i]).total == sub_board_outcome(
            r@[i]@,
        ) by {
            assert(r@[i]@[0] == Token::Clear);
            assert(!cells_full(r@[i]@));
        }
        assert(ownership_marks(totals(r@)) =~= Seq::new(9, |j: int| None::<Player>));
        assert(totals(r@)[0] == Ownership::Undecided);
        r
    }

    /// The board whose cell `j` of sub-board `i` holds `Cross` where
    /// `draws[i][j]` is true and `Circle` where it is false, with every
    /// ownership evaluated.
    pub fn from_draws(draws: [[bool; 9]; 9]) -> (r: Global)
        ensures
            r@.len() == 9,
            forall|i: int, j: int|
                0 <= i < 9 && 0 <= j < 9 ==> #[trigger] r@[i]@[j] == drawn_token(draws@[i]@[j]),
            r.is_consistent(),
    {
        let mut result = Self::new();
        let mut i: usize = 0;
        while i < 9
            invariant
                i <= 9,
                result@.len() == 9,
                forall|k: int|
                    0 <= k < 9 ==> (#[trigger] result@[k]).total == sub_board_outcome(
                        result@[k]@,
                    ),
                forall|k: int, j: int|
                    0 <= k < i && 0 <= j < 9 ==> #[trigger] result@[k]@[j] == drawn_token(
                        draws@[k]@[j],
                    ),
            decreases 9 - i,
        {
            result.entries[i] = Local::from_draws(draws[i]);
            i = i + 1;
        }
        result.recompute_total();
        result
    }

    /// A board whose every cell holds a random mark, with every ownership
    /// evaluated.
    pub fn random() -> (r: Global)
        ensures
            r@.len() == 9,
            forall|i: int| 0 <= i < 9 ==> cells_full((#[trigger] r@[i])@),
            r.is_consistent(),
    {
        let mut draws = [[false; 9]; 9];
        let mut i: usize = 0;
        while i < 9
            invariant
                i <= 9,
            decreases 9 - i,
        {
            draws[i] = draw_nine();
            i = i + 1;
        }
        let r = Self::from_draws(draws);
        assert forall|i: int| 0 <= i < 9 implies cells_full((#[trigger] r@[i])@) by {
            assert forall|j: int| 0 <= j < 9 implies r@[i]@[j] != Token::Clear by {
                assert(r@[i]@[j] == drawn_token(draws@[i]@[j]));
            }
        }
        r
    }

    /// Writes `token` at `position` and nothing else: no ownership is
    /// evaluated again.
    pub fn set(&mut self, position: coord::Global, token: Token)
        ensures
            final(self)@.len() == 9,
            forall|i: int|
                0 <= i < 9 && i != region_of(position@) ==> (#[trigger] final(self)@[i]) == old(
                    self,
                )@[i],
            final(self)@[region_of(position@) as int]@ == old(self).cells_after(position, token),
            final(self)@[region_of(position@) as int].total == old(self)@[region_of(
                position@,
            ) as int].total,
            final(self).owner() == old(self).owner(),
    {
        let ri = position.get_region().index();
        let mut sub = self.entries[ri];
        sub.set(position.get_local(), token);
        self.entries[ri] = sub;
    }

    /// The sub-board at `region`.
    pub fn region(&self, region: coord::Local) -> (r: &Local)
        ensures
            *r == self@[region@ as int],
    {
        &self.entries[region.index()]
    }

    /// The token at `position`.
    pub fn at(&self, position: coord::Global) -> (r: Token)
        ensures
            r == self@[region_of(position@) as int]@[cell_of(position@) as int],
    {
        self.entries[position.get_region().index()].get(position.get_local())
    }

    /// The ownership of the whole board as last computed.
    pub fn total(&self) -> (r: Ownership)
        ensures
            r == self.owner(),
    {
        self.total
    }

    /// Evaluates the board's ownership again from the sub-boards'.
    fn recompute_total(&mut self)
        ensures
            final(self)@ == old(self)@,
            final(self).owner() == board_outcome(totals(final(self)@)),
    {
        let m = [
            self.entries[0].total.mark(),
            self.entries[1].total.mark(),
            self.entries[2].total.mark(),
            self.entries[3].total.mark(),
            self.entries[4].total.mark(),
            self.entries[5].total.mark(),
            self.entries[6].total.mark(),
            self.entries[7].total.mark(),
            self.entries[8].total.mark(),
        ];
        assert(m@ =~= ownership_marks(totals(self@)));
        let full = self.all_decided();
        self.total = evaluate(&m, full);
    }

    fn all_decided(&self) -> (r: bool)
        ensures
            r == owners_full(totals(self@)),
    {
        let mut i: usize = 0;
        while i < 9
            invariant
                i <= 9,
                forall|k: int| 0 <= k < i ==> totals(self@)[k] != Ownership::Undecided,
            decreases 9 - i,
        {
            assert(totals(self@)[i as int] == self@[i as int].total);
            if self.entries[i].total == Ownership::Undecided {
                return false;
            }
            i = i + 1;
        }
        true
    }

    /// Writes `token` at `position`, recomputes the ownership of its
    /// sub-board from the nine cells, then that of the whole board from the
    /// nine sub-board ownerships. No legality is checked here; the write must
    /// not leave a grid with a line held by each side.
    pub fn place_token(&mut self, position: coord::Global, token: Token)
        requires
            old(self).placement_is_unambiguous(position, token),
        ensures
            old(self).placed(*final(self), position, token),
            old(self).is_consistent() ==> final(self).is_consistent(),
    {
        let ri = position.get_region().index();
        let mut sub = self.entries[ri];
        sub.place_token(position.get_local(), token);
        self.entries[ri] = sub;
        assert(totals(self@) =~= old(self).totals_after(position, token));
        self.recompute_total();
        proof {
            if old(self).is_consistent() {
                assert forall|i: int| 0 <= i < 9 implies (#[trigger] self@[i]).total
                    == sub_board_outcome(self@[i]@) by {
                    assert(totals(self@)[i] == self@[i].total);
                }
            }
        }
    }
}

/// Writing a mark other than `q`'s into one cell of a grid where `q` holds
/// no line leaves `q` without a line.
proof fn lemma_write_keeps_no_line(m: Seq<Option<Player>>, i: int, v: Option<Player>, q: Player)
    requires
        m.len() == 9,
        0 <= i < 9,
        v != Some(q),
        !has_triple(m, q),
    ensures
        !has_triple(m.update(i, v), q),
{
}

/// On a consistent, undecided board, a side writing its own token into an
/// undecided sub-board leaves no grid with a line held by each side: the
/// precondition of `Global::place_token` holds all through alternating play.
pub proof fn lemma_move_is_unambiguous(g: Global, position: coord::Global, p: Player)
    requires
        g.is_consistent(),
        g.owner() == Ownership::Undecided,
        region_of(position@) < 9,
        cell_of(position@) < 9,
        g@[region_of(position@) as int].total == Ownership::Undecided,
    ensures
        g.placement_is_unambiguous(position, player_token(p)),
{
    let r = region_of(position@) as int;
    let c = cell_of(position@) as int;
    let t = player_token(p);
    let q = opponent(p);
    let cells = g@[r]@;
    let new_cells = g.cells_after(position, t);
    assert(token_marks(new_cells) =~= token_marks(cells).update(c, token_mark(t)));
    lemma_write_keeps_no_line(token_marks(cells), c, token_mark(t), q);
    let owners = totals(g@);
    assert(ownership_marks(g.totals_after(position, t)) =~= ownership_marks(owners).update(
        r,
        ownership_mark(sub_board_outcome(new_cells)),
    ));
    lemma_write_keeps_no_line(ownership_marks(owners), r, ownership_mark(sub_board_outcome(new_cells)), q);
}

/// A sub-board with a row of three tokens of `p`, where the other side holds
/// no line, belongs to `p`.
pub proof fn lemma_row_of_tokens_wins(cells: Seq<Token>, p: Player, row: int)
    requires
        cells.len() == 9,
        0 <= row < 3,
        cells[3 * row] == player_token(p),
        cells[3 * row + 1] == player_token(p),
        cells[3 * row + 2] == player_token(p),
        !has_triple(token_marks(cells), opponent(p)),
    ensures
        sub_board_outcome(cells) == owned_by(p),
{
    let m = token_marks(cells);
    assert(m[3 * row] == Some(p) && m[3 * row + 1] == Some(p) && m[3 * row + 2] == Some(p));
    assert(has_triple(m, p));
}

/// A sub-board whose nine cells are all filled, with no line for either
/// side, is a draw.
pub proof fn lemma_full_without_line_is_draw(cells: Seq<Token>)
    requires
        cells.len() == 9,
        cells_full(cells),
        !has_triple(token_marks(cells), Player::Circle),
        !has_triple(token_marks(cells), Player::Cross),
    ensures
        sub_board_outcome(cells) == Ownership::Draw,
{
}

/// A sub-board with a clear cell and no line for either side is undecided:
/// eight filled cells without a line leave it open.
pub proof fn lemma_open_without_line_is_undecided(cells: Seq<Token>, i: int)
    requires
        cells.len() == 9,
        0 <= i < 9,
        cells[i] == Token::Clear,
        !has_triple(token_marks(cells), Player::Circle),
        !has_triple(token_marks(cells), Player::Cross),
    ensures
        sub_board_outcome(cells) == Ownership::Undecided,
{
}

/// The whole board follows the same rule one level up: three sub-boards in
/// a row owned by `p`, with no line of sub-boards owned by the other side,
/// make the board `p`'s.
pub proof fn lemma_row_of_regions_wins(owners: Seq<Ownership>, p: Player, row: int)
    requires
        owners.len() == 9,
        0 <= row < 3,
        owners[3 * row] == owned_by(p),
        owners[3 * row + 1] == owned_by(p),
        owners[3 * row + 2] == owned_by(p),
        !has_triple(ownership_marks(owners), opponent(p)),
    ensures
        board_outcome(owners) == owned_by(p),
{
    let m = ownership_marks(owners);
    assert(m[3 * row] == Some(p) && m[3 * row + 1] == Some(p) && m[3 * row + 2] == Some(p));
    assert(has_triple(m, p));
}

} // verus!
