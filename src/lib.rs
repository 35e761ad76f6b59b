//! A tic-tac-toe board driven by a movable cursor.
//!
//! The board holds nine cells, addressed `0..9` row by row. The player moves a
//! cursor over the empty cells and commits a mark under it; the computer answers
//! with a mark on a cell chosen at random among those that hold no mark.
use vstd::prelude::*;

verus! {

/// What one cell of the board shows.
#[derive(Debug, Clone, Copy, PartialEq, Eq, Structural)]
pub enum CellState {
    X,
    O,
    Empty,
    Cursor,
}

impl CellState {
    /// The character that shows this cell on screen.
    pub fn glyph(self) -> (r: char)
        ensures
            r == match self {
                CellState::X => 'X',
                CellState::O => 'O',
                CellState::Empty => ' ',
                CellState::Cursor => '*',
            },
    {
        match self {
            CellState::X => 'X',
            CellState::O => 'O',
            CellState::Empty => ' ',
            CellState::Cursor => '*',
        }
    }
}

/// A direction in which the cursor can be moved.
#[derive(Debug, Clone, Copy, PartialEq, Eq, Structural)]
pub enum Direction {
    Up,
    Down,
    Left,
    Right,
}

/// A cell that holds a mark of either side; such a cell is never written again.
pub open spec fn is_mark(c: CellState) -> bool {
    c == CellState::X || c == CellState::O
}

/// The first cell of row `row` that is empty, or `-1` where the row has none.
pub open spec fn first_empty_in_row(cells: Seq<CellState>, row: int) -> int {
    if cells[3 * row] == CellState::Empty {
        3 * row
    } else if cells[3 * row + 1] == CellState::Empty {
        3 * row + 1
    } else if cells[3 * row + 2] == CellState::Empty {
        3 * row + 2
    } else {
        -1
    }
}

/// Where an upward search that starts at cell `n` settles: `n` itself when
/// empty, else the first empty cell of its row, else the same search one row
/// up; at the top row it settles on `n`.
pub open spec fn up_search(cells: Seq<CellState>, n: int) -> int
    decreases n,
{
    if n < 0 || n >= 9 || cells[n] == CellState::Empty {
        n
    } else if first_empty_in_row(cells, n / 3) >= 0 {
        first_empty_in_row(cells, n / 3)
    } else if n / 3 > 0 {
        up_search(cells, n - 3)
    } else {
        n
    }
}

/// The downward counterpart of `up_search`; at the bottom row it settles on `n`.
pub open spec fn down_search(cells: Seq<CellState>, n: int) -> int
    decreases 9 - n,
{
    if n < 0 || n >= 9 || cells[n] == CellState::Empty {
        n
    } else if first_empty_in_row(cells, n / 3) >= 0 {
        first_empty_in_row(cells, n / 3)
    } else if n / 3 < 2 {
        down_search(cells, n + 3)
    } else {
        n
    }
}

/// Where a leftward search that starts at cell `n` settles: the nearest empty
/// cell at or left of `n` in its row, else the row's first cell.
pub open spec fn left_search(cells: Seq<CellState>, n: int) -> int
    decreases n,
{
    if n <= 0 || n >= 9 || cells[n] == CellState::Empty || n % 3 == 0 {
        n
    } else {
        left_search(cells, n - 1)
    }
}

/// Where a rightward search that starts at cell `n` settles: the nearest empty
/// cell at or right of `n` in its row, else the row's last cell.
pub open spec fn right_search(cells: Seq<CellState>, n: int) -> int
    decreases 9 - n,
{
    if n < 0 || n >= 9 || cells[n] == CellState::Empty || n % 3 == 2 {
        n
    } else {
        right_search(cells, n + 1)
    }
}

/// The cell that a move from `pos` in direction `d` settles on: a one-step move
/// (none across the board's edge), followed by the search of that direction.
pub open spec fn move_target(cells: Seq<CellState>, pos: int, d: Direction) -> int {
    match d {
        Direction::Up => if pos < 3 { pos } else { up_search(cells, pos - 3) },
        Direction::Down => if pos > 5 { pos } else { down_search(cells, pos + 3) },
        Direction::Left => left_search(cells, if pos % 3 == 0 { pos } else { pos - 1 }),
        Direction::Right => right_search(cells, if pos % 3 == 2 { pos } else { pos + 1 }),
    }
}

/// The lowest empty cell at or after `i`, or `9` where there is none.
pub open spec fn first_empty_from(cells: Seq<CellState>, i: int) -> int
    decreases 9 - i,
{
    if i < 0 || i >= 9 {
        9
    } else if cells[i] == CellState::Empty {
        i
    } else {
        first_empty_from(cells, i + 1)
    }
}

/// The abstract state of a game.
pub struct GameView {
    pub over: bool,
    pub cells: Seq<CellState>,
    pub pos: int,
    pub prev: Option<int>,
}

/// A game: the board, the cursor, and the cell where the cursor was last
/// painted.
pub struct Game {
    game_over: bool,
    game_state: [CellState; 9],
    player_position: u8,
    previous_player_position: Option<usize>,
}

impl View for Game {
    type V = GameView;

    closed spec fn view(&self) -> GameView {
        GameView {
            over: self.game_over,
            cells: self.game_state@,
            pos: self.player_position as int,
            prev: match self.previous_player_position {
                Some(i) => Some(i as int),
                None => None,
            },
        }
    }
}

impl GameView {
    /// The game is over exactly when the cursor is off the board; a cursor on
    /// the board stands on a cell without a mark; a cell shows the cursor only
    /// where it was last painted.
    pub open spec fn wf(self) -> bool {
        &&& self.cells.len() == 9
        &&& (self.over <==> self.pos >= 9)
        &&& !self.over ==> 0 <= self.pos && !is_mark(self.cells[self.pos])
        &&& forall|i: int|
            0 <= i < 9 && self.cells[i] == CellState::Cursor ==> self.prev == Some(i)
        &&& self.prev matches Some(i) ==> 0 <= i < 9
    }

    /// A fresh game: an empty board, the cursor on the first cell.
    pub open spec fn initial() -> GameView {
        GameView { over: false, cells: Seq::new(9, |i: int| CellState::Empty), pos: 0, prev: None }
    }

    /// The state after a move of the cursor in direction `d`: the cursor goes
    /// to the cell that the move settles on when that cell is empty, and stays
    /// otherwise; nothing moves once the game is over.
    pub open spec fn moved(self, d: Direction) -> GameView {
        if self.over {
            self
        } else {
            let t = move_target(self.cells, self.pos, d);
            if 0 <= t < 9 && self.cells[t] == CellState::Empty {
                GameView { pos: t, ..self }
            } else {
                self
            }
        }
    }

    /// The cursor moved to the lowest empty cell; where none is left, the game
    /// is over and the cursor leaves the board.
    pub open spec fn relocated(self) -> GameView {
        let f = first_empty_from(self.cells, 0);
        if f < 9 {
            GameView { pos: f, ..self }
        } else {
            GameView { over: true, pos: 10, ..self }
        }
    }

    /// The state after the player commits a mark under the cursor.
    pub open spec fn after_player_token(self) -> GameView {
        if self.over {
            self
        } else {
            GameView { cells: self.cells.update(self.pos, CellState::X), ..self }.relocated()
        }
    }

    /// The state after the computer marks cell `p`, which holds no mark: where
    /// the cursor stood on it, the cursor is relocated past the new mark.
    pub open spec fn after_computer_token_at(self, p: int) -> GameView {
        let marked = GameView { cells: self.cells.update(p, CellState::O), ..self };
        if p == self.pos {
            marked.relocated()
        } else {
            marked
        }
    }

    /// The state after the cursor is painted for display: the cell painted last
    /// time goes back to empty unless a mark has since been put there, and the
    /// cell under the cursor, while the game goes on, shows the cursor.
    pub open spec fn reconciled(self) -> GameView {
        let cleared = match self.prev {
            Some(i) => if is_mark(self.cells[i]) {
                self.cells
            } else {
                self.cells.update(i, CellState::Empty)
            },
            None => self.cells,
        };
        if self.pos < 9 {
            GameView { cells: cleared.update(self.pos, CellState::Cursor), prev: Some(self.pos), ..self }
        } else {
            GameView { cells: cleared, ..self }
        }
    }

    /// Every cell of the board holds a mark.
    pub open spec fn full(self) -> bool {
        forall|i: int| 0 <= i < 9 ==> is_mark(self.cells[i])
    }

    /// Every cell that holds a mark in `self` holds the same mark in `next`.
    pub open spec fn marks_kept(self, next: GameView) -> bool {
        forall|i: int| 0 <= i < 9 && is_mark(self.cells[i]) ==> next.cells[i] == self.cells[i]
    }
}

impl Game {
    pub open spec fn wf(&self) -> bool {
        self@.wf()
    }

    /// A fresh game: every cell empty, the cursor on the first cell.
    pub fn new() -> (r: Game)
        ensures
            r.wf(),
            r@ == GameView::initial(),
    {
        let game_state = [CellState::Empty; 9];
        let r = Game {
            game_over: false,
            game_state,
            previous_player_position: None,
            player_position: 0,
        };
        assert(r@.cells =~= GameView::initial().cells);
        r
    }

    /// The first empty cell of row `row`, if any.
    fn empty_in_row(&self, row: u8) -> (r: Option<u8>)
        requires
            row < 3,
        ensures
            match r {
                Some(j) => j as int == first_empty_in_row(self@.cells, row as int),
                None => first_empty_in_row(self@.cells, row as int) == -1,
            },
    {
        let mut i: u8 = 0;
        while i < 3
            invariant
                i <= 3,
                row < 3,
                i >= 1 ==> self@.cells[3 * row] != CellState::Empty,
                i >= 2 ==> self@.cells[3 * row + 1] != CellState::Empty,
                i >= 3 ==> self@.cells[3 * row + 2] != CellState::Empty,
            decreases 3 - i,
        {
            let cell = i + row * 3;
            if self.game_state[cell as usize] == CellState::Empty {
                return Some(cell);
            }
            i += 1;
        }
        None
    }

    /// Moves the cursor one step in `direction`, skipping over taken cells: up
    /// and down settle on the first empty cell of the nearest row that has one,
    /// left and right on the nearest empty cell of the same row. The cursor stays
    /// where no empty cell is found, and once the game is over.
    pub fn move_player(&mut self, direction: Direction)
        requires
            old(self).wf(),
        ensures
            final(self).wf(),
            final(self)@ == old(self)@.moved(direction),
            old(self)@.marks_kept(final(self)@),
    {
        if self.game_over {
            return;
        }
        let ghost cells = self@.cells;
        let ghost target = move_target(cells, self@.pos, direction);
        let mut new_position = self.player_position;
        match direction {
            Direction::Up => {
                if self.player_position < 3 {
                    return;
                }
                // One row up; where that cell is taken, the first empty cell of
                // its row, else the same one row further up.
                new_position = self.player_position - 3;
                while self.game_state[new_position as usize] != CellState::Empty
                    invariant
                        new_position < 9,
                        self@.cells == cells,
                        up_search(cells, new_position as int)
                            == target,
                    ensures
                        new_position as int == target,
                    decreases new_position,
                {
                    match self.empty_in_row(new_position / 3) {
                        Some(j) => {
                            new_position = j;
                            break;
                        },
                        None => {},
                    }
                    if new_position / 3 > 0 {
                        new_position -= 3;
                    } else {
                        break;
                    }
                }
            },
            Direction::Down => {
                if self.player_position > 5 {
                    return;
                }
                new_position = self.player_position + 3;
                while self.game_state[new_position as usize] != CellState::Empty
                    invariant
                        new_position < 9,
                        self@.cells == cells,
                        down_search(cells, new_position as int)
                            == target,
                    ensures
                        new_position as int == target,
                    decreases 9 - new_position,
                {
                    match self.empty_in_row(new_position / 3) {
                        Some(j) => {
                            new_position = j;
                            break;
                        },
                        None => {},
                    }
                    if new_position / 3 < 2 {
                        new_position += 3;
                    } else {
                        break;
                    }
                }
            },
            Direction::Left => {
                if new_position % 3 != 0 {
                    new_position -= 1;
                }
                while self.game_state[new_position as usize] != CellState::Empty
                    invariant
                        new_position < 9,
                        self@.cells == cells,
                        left_search(cells, new_position as int)
                            == target,
                    ensures
                        new_position as int == target,
                    decreases new_position,
                {
                    if new_position % 3 == 0 {
                        break;
                    }
                    new_position -= 1;
                }
            },
            Direction::Right => {
                if new_position % 3 != 2 {
                    new_position += 1;
                }
                while self.game_state[new_position as usize] != CellState::Empty
                    invariant
                        new_position < 9,
                        self@.cells == cells,
                        right_search(cells, new_position as int)
                            == target,
                    ensures
                        new_position as int == target,
                    decreases 9 - new_position,
                {
                    if new_position % 3 == 2 {
                        break;
                    }
                    new_position += 1;
                }
            },
        }
        if self.game_state[new_position as usize] == CellState::Empty {
            self.player_position = new_position;
        }
    }

    /// Puts the cursor on the lowest empty cell; with none left, ends the game.
    fn relocate_player(&mut self)
        requires
            old(self)@.cells.len() == 9,
        ensures
            final(self)@ == old(self)@.relocated(),
    {
        let ghost start = self@;
        self.player_position = 0;
        while self.player_position < 9 && self.game_state[self.player_position as usize]
            != CellState::Empty
            invariant
                self.player_position <= 9,
                self@.cells == start.cells,
                self@.over == start.over,
                self@.prev == start.prev,
                first_empty_from(start.cells, self.player_position as int)
                    == first_empty_from(start.cells, 0),
            decreases 9 - self.player_position,
        {
            self.player_position += 1;
        }
        if self.player_position == 9 {
            // no empty cell is left
            self.game_over = true;
            self.player_position = 10;
        }
    }

    /// Commits the player's mark under the cursor and moves the cursor to the
    /// lowest empty cell; where none is left, the game is over. Does nothing once
    /// the game is over.
    pub fn place_player_token(&mut self)
        requires
            old(self).wf(),
        ensures
            final(self).wf(),
            final(self)@ == old(self)@.after_player_token(),
            old(self)@.marks_kept(final(self)@),
    {
        if self.game_over {
            return;
        }
        self.game_state[self.player_position as usize] = CellState::X;
        self.relocate_player();
        proof {
            lemma_player_token_wf(old(self)@);
        }
    }

    /// Marks cell `cell` for the computer, where it is on the board and holds no
    /// mark; does nothing otherwise. Where the cursor stands on that cell it is
    /// first moved out of the way.
    pub fn place_computer_token_at(&mut self, cell: usize)
        requires
            old(self).wf(),
        ensures
            final(self).wf(),
            final(self)@ == if cell < 9 && !is_mark(old(self)@.cells[cell as int]) {
                old(self)@.after_computer_token_at(cell as int)
            } else {
                old(self)@
            },
            old(self)@.marks_kept(final(self)@),
    {
        if cell >= 9 {
            return;
        }
        if self.game_state[cell] == CellState::X || self.game_state[cell] == CellState::O {
            return;
        }
        self.game_state[cell] = CellState::O;
        if cell == self.player_position as usize {
            self.relocate_player();
        }
        proof {
            lemma_computer_token_wf(old(self)@, cell as int);
        }
    }

    /// Marks, for the computer, a cell drawn at random among those that hold no
    /// mark; does nothing where every cell holds one.
    pub fn place_computer_token(&mut self)
        requires
            old(self).wf(),
        ensures
            final(self).wf(),
            old(self)@.full() ==> final(self)@ == old(self)@,
            !old(self)@.full() ==> exists|p: int|
                0 <= p < 9 && !is_mark(#[trigger] old(self)@.cells[p])
                    && final(self)@ == old(self)@.after_computer_token_at(p),
            old(self)@.marks_kept(final(self)@),
    {
        let mut available_cells: Vec<usize> = Vec::new();
        let mut i: usize = 0;
        while i < 9
            invariant
                i <= 9,
                self@ == old(self)@,
                forall|k: int| 0 <= k < available_cells@.len() ==>
                    #[trigger] available_cells@[k] < 9
                    && !is_mark(self@.cells[available_cells@[k] as int]),
                forall|k: int| 0 <= k < i && !is_mark(#[trigger] self@.cells[k]) ==>
                    available_cells@.len() > 0,
            decreases 9 - i,
        {
            if self.game_state[i] != CellState::X && self.game_state[i] != CellState::O {
                available_cells.push(i);
            }
            i += 1;
        }
        if available_cells.len() == 0 {
            return;
        }
        let random_index = random_below(available_cells.len());
        let random_position = available_cells[random_index];
        self.place_computer_token_at(random_position);
    }

    /// Paints the cursor for display, clearing the cell painted last time.
    pub fn apply_game_logic(&mut self)
        requires
            old(self).wf(),
        ensures
            final(self).wf(),
            final(self)@ == old(self)@.reconciled(),
            old(self)@.marks_kept(final(self)@),
    {
        if let Some(i) = self.previous_player_position {
            if self.game_state[i] != CellState::X && self.game_state[i] != CellState::O {
                self.game_state[i] = CellState::Empty;
            }
        }
        if self.player_position < 9 {
            self.game_state[self.player_position as usize] = CellState::Cursor;
            self.previous_player_position = Some(self.player_position as usize);
        }
        assert(self@.cells =~= old(self)@.reconciled().cells);
    }

    /// A game in progress on the board `cells`, with the cursor on cell
    /// `position`; `None` where a cell shows the cursor or `position` is not an
    /// empty cell of the board.
    pub fn from_cells(cells: [CellState; 9], position: u8) -> (r: Option<Game>)
        ensures
            r is Some <==> position < 9 && cells@[position as int] == CellState::Empty
                && forall|i: int| 0 <= i < 9 ==> #[trigger] cells@[i] != CellState::Cursor,
            r matches Some(g) ==> g.wf() && g@ == (GameView {
                over: false,
                cells: cells@,
                pos: position as int,
                prev: None,
            }),
    {
        if position >= 9 || cells[position as usize] != CellState::Empty {
            return None;
        }
        let mut i: usize = 0;
        while i < 9
            invariant
                i <= 9,
                forall|k: int| 0 <= k < i ==> #[trigger] cells@[k] != CellState::Cursor,
            decreases 9 - i,
        {
            if cells[i] == CellState::Cursor {
                return None;
            }
            i += 1;
        }
        Some(Game {
            game_over: false,
            game_state: cells,
            player_position: position,
            previous_player_position: None,
        })
    }

    /// The cell under the cursor; off the board once the game is over.
    pub fn player_position(&self) -> (r: u8)
        ensures
            r as int == self@.pos,
    {
        self.player_position
    }

    /// What cell `i` shows.
    pub fn cell(&self, i: usize) -> (r: CellState)
        requires
            i < 9,
        ensures
            r == self@.cells[i as int],
    {
        self.game_state[i]
    }

    /// The nine cells, row by row.
    pub fn cells(&self) -> (r: [CellState; 9])
        ensures
            r@ == self@.cells,
    {
        self.game_state
    }

    /// Whether the board has filled up.
    pub fn game_over(&self) -> (r: bool)
        ensures
            r == self@.over,
    {
        self.game_over
    }
}

/// On a well-formed board at most one cell shows the cursor. Every operation
/// keeps a board well formed and keeps every mark in place, so this holds after
/// any sequence of moves, commits and repaints.
pub proof fn lemma_at_most_one_cursor(g: GameView, i: int, j: int)
    requires
        g.wf(),
        0 <= i < 9,
        0 <= j < 9,
        g.cells[i] == CellState::Cursor,
        g.cells[j] == CellState::Cursor,
    ensures
        i == j,
{
}

/// On a board with no mark and no painted cursor, a move up followed by a move
/// down brings the cursor back to where it was, from any cell below the top row.
pub proof fn lemma_up_down_round_trip(g: GameView)
    requires
        g.wf(),
        !g.over,
        3 <= g.pos,
        forall|i: int| 0 <= i < 9 ==> g.cells[i] == CellState::Empty,
    ensures
        g.moved(Direction::Up).moved(Direction::Down) == g,
{
    let u = g.moved(Direction::Up);
    assert(u.pos == g.pos - 3);
    assert(u.moved(Direction::Down).pos == g.pos);
}

/// On a board with no mark and no painted cursor, a move left followed by a move
/// right brings the cursor back to where it was, from any cell off the left
/// column.
pub proof fn lemma_left_right_round_trip(g: GameView)
    requires
        g.wf(),
        !g.over,
        g.pos % 3 != 0,
        forall|i: int| 0 <= i < 9 ==> g.cells[i] == CellState::Empty,
    ensures
        g.moved(Direction::Left).moved(Direction::Right) == g,
{
    let l = g.moved(Direction::Left);
    assert(l.pos == g.pos - 1);
    assert(l.moved(Direction::Right).pos == g.pos);
}

/// Once all nine cells hold marks the game is over, and from then on neither a
/// move, a commit of the player nor a repaint changes the board (a commit of the
/// computer leaves a full board as it is by its own contract).
pub proof fn lemma_full_board_is_final(g: GameView, d: Direction)
    requires
        g.wf(),
        g.full(),
    ensures
        g.over,
        g.moved(d) == g,
        g.after_player_token() == g,
        g.reconciled() == g,
{
    if !g.over {
        assert(is_mark(g.cells[g.pos]));
    }
    if let Some(i) = g.prev {
        assert(is_mark(g.cells[i]));
    }
}

/// Relies on rand::thread_rng and rand::Rng::gen_range: a value drawn from the
/// non-empty range `0..n`.
#[verifier::external_body]
fn random_below(n: usize) -> (r: usize)
    requires
        n > 0,
    ensures
        r < n,
{
    rand::Rng::gen_range(&mut rand::thread_rng(), 0..n)
}

proof fn lemma_first_empty(cells: Seq<CellState>, i: int)
    requires
        cells.len() == 9,
        0 <= i <= 9,
    ensures
        i <= first_empty_from(cells, i) <= 9,
        first_empty_from(cells, i) < 9 ==> cells[first_empty_from(cells, i)] == CellState::Empty,
        forall|k: int| i <= k < first_empty_from(cells, i) ==> cells[k] != CellState::Empty,
    decreases 9 - i,
{
    if i < 9 && cells[i] != CellState::Empty {
        lemma_first_empty(cells, i + 1);
    }
}

proof fn lemma_player_token_wf(g: GameView)
    requires
        g.wf(),
    ensures
        g.after_player_token().wf(),
        g.marks_kept(g.after_player_token()),
{
    if !g.over {
        lemma_first_empty(g.cells.update(g.pos, CellState::X), 0);
    }
}

proof fn lemma_computer_token_wf(g: GameView, p: int)
    requires
        g.wf(),
        0 <= p < 9,
        !is_mark(g.cells[p]),
    ensures
        g.after_computer_token_at(p).wf(),
        g.marks_kept(g.after_computer_token_at(p)),
{
    lemma_first_empty(g.cells.update(p, CellState::O), 0);
}

} // verus!
