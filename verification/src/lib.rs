//! A tic-tac-toe game core: a 3x3 board, turn alternation, win and draw
//! detection, and a reset action. The state machine is fully specified and
//! verified; rendering and input collection live outside this crate.

use vstd::prelude::*;

verus! {

/// One of the two players. `X` always moves first.
#[derive(Clone, Copy, Debug, PartialEq, Eq, Structural)]
pub enum Player {
    X,
    O,
}

/// The content of one board cell: empty, or taken by a player.
#[derive(Clone, Copy, Debug, PartialEq, Eq, Structural)]
pub enum Cell {
    Empty,
    Taken(Player),
}

/// The game status. `Won` and `Draw` are terminal: once reached, only a
/// reset changes the state.
#[derive(Clone, Copy, Debug, PartialEq, Eq, Structural)]
pub enum Status {
    InProgress,
    Won(Player),
    Draw,
}

/// The player whose turn follows `p`'s.
pub open spec fn other_player(p: Player) -> Player {
    match p {
        Player::X => Player::O,
        Player::O => Player::X,
    }
}

/// Cells `i`, `j`, `k` are all taken by `p`.
pub open spec fn line_taken(b: Seq<Cell>, p: Player, i: int, j: int, k: int) -> bool {
    &&& b[i] == Cell::Taken(p)
    &&& b[j] == Cell::Taken(p)
    &&& b[k] == Cell::Taken(p)
}

/// Player `p` occupies at least one of the eight winning triples:
/// three rows, three columns, two diagonals (row-major indices 0..=8).
pub open spec fn wins(b: Seq<Cell>, p: Player) -> bool {
    ||| line_taken(b, p, 0, 1, 2)
    ||| line_taken(b, p, 3, 4, 5)
    ||| line_taken(b, p, 6, 7, 8)
    ||| line_taken(b, p, 0, 3, 6)
    ||| line_taken(b, p, 1, 4, 7)
    ||| line_taken(b, p, 2, 5, 8)
    ||| line_taken(b, p, 0, 4, 8)
    ||| line_taken(b, p, 2, 4, 6)
}

/// Decides whether `player` has a complete winning line on `board`.
pub fn check_winner(board: &Vec<Cell>, player: Player) -> (r: bool)
    requires
        board.len() == 9,
    ensures
        r == wins(board@, player),
{
    let t = Cell::Taken(player);
    (board[0] == t && board[1] == t && board[2] == t)
        || (board[3] == t && board[4] == t && board[5] == t)
        || (board[6] == t && board[7] == t && board[8] == t)
        || (board[0] == t && board[3] == t && board[6] == t)
        || (board[1] == t && board[4] == t && board[7] == t)
        || (board[2] == t && board[5] == t && board[8] == t)
        || (board[0] == t && board[4] == t && board[8] == t)
        || (board[2] == t && board[4] == t && board[6] == t)
}

/// Every cell of `b` is taken.
pub open spec fn board_full(b: Seq<Cell>) -> bool {
    forall|i: int| 0 <= i < b.len() ==> b[i] != Cell::Empty
}

/// The board at the start of a game: nine empty cells.
pub open spec fn empty_board() -> Seq<Cell> {
    Seq::new(9, |i: int| Cell::Empty)
}

/// The mathematical value of a game state.
pub ghost struct GameView {
    pub board: Seq<Cell>,
    pub current_player: Player,
    pub status: Status,
}

/// The state a game starts in, and that `reset` restores: an empty board,
/// `X` to move, the game in progress.
pub open spec fn initial_state() -> GameView {
    GameView { board: empty_board(), current_player: Player::X, status: Status::InProgress }
}

/// A move at `cell` is accepted: the game is still in progress, the index
/// is on the board, and the cell is free. Any other attempt is a no-op.
pub open spec fn move_accepted(g: GameView, cell: int) -> bool {
    &&& g.status == Status::InProgress
    &&& 0 <= cell < 9
    &&& g.board[cell] == Cell::Empty
}

/// The transition one `attempt_move` call makes: a rejected move leaves the
/// state unchanged; an accepted one places the current player's mark and then,
/// in this order, declares a win, declares a draw on a full board, or passes
/// the turn to the other player.
pub open spec fn step(g: GameView, cell: int) -> GameView {
    if !move_accepted(g, cell) {
        g
    } else {
        let b = g.board.update(cell, Cell::Taken(g.current_player));
        if wins(b, g.current_player) {
            GameView { board: b, current_player: g.current_player, status: Status::Won(g.current_player) }
        } else if board_full(b) {
            GameView { board: b, current_player: g.current_player, status: Status::Draw }
        } else {
            GameView { board: b, current_player: other_player(g.current_player), status: g.status }
        }
    }
}

/// The game state: the board, whose turn it is, and whether the game has
/// ended. The presentation layer reads the fields and mutates the state only
/// through `attempt_move` and `reset`.
pub struct GameState {
    pub board: Vec<Cell>,
    pub current_player: Player,
    pub status: Status,
}

impl View for GameState {
    type V = GameView;

    open spec fn view(&self) -> GameView {
        GameView { board: self.board@, current_player: self.current_player, status: self.status }
    }
}

impl GameState {
    /// The one structural invariant: the board never resizes.
    pub open spec fn wf(self) -> bool {
        self.board.len() == 9
    }

    /// A fresh game.
    pub fn new() -> (g: GameState)
        ensures
            g.wf(),
            g@ == initial_state(),
    {
        let mut board: Vec<Cell> = Vec::new();
        let mut i: usize = 0;
        while i < 9
            invariant
                i <= 9,
                board@ =~= Seq::new(i as nat, |j: int| Cell::Empty),
            decreases 9 - i,
        {
            board.push(Cell::Empty);
            i += 1;
        }
        GameState { board, current_player: Player::X, status: Status::InProgress }
    }

    /// Restores the initial state, whatever the state was before.
    pub fn reset(&mut self)
        ensures
            final(self).wf(),
            final(self)@ == initial_state(),
    {
        *self = GameState::new();
    }

    /// Attempts a move at `cell`. A move after the game has ended, at an
    /// index off the board, or on a taken cell is silently ignored; an
    /// accepted move places the mark and settles the new status, checking
    /// for a win before a draw.
    pub fn attempt_move(&mut self, cell: usize)
        requires
            old(self).wf(),
        ensures
            final(self).wf(),
            final(self)@ == step(old(self)@, cell as int),
    {
        if matches!(self.status, Status::InProgress) && cell < 9 {
            if matches!(self.board[cell], Cell::Empty) {
                let mover = self.current_player;
                self.board[cell] = Cell::Taken(mover);
                if check_winner(&self.board, mover) {
                    self.status = Status::Won(mover);
                } else if board_is_full(&self.board) {
                    self.status = Status::Draw;
                } else {
                    self.current_player = match mover {
                        Player::X => Player::O,
                        Player::O => Player::X,
                    };
                }
            }
        }
    }
}

impl Default for GameState {
    /// Same state as `GameState::new`.
    fn default() -> (g: GameState)
        ensures
            g.wf(),
            g@ == initial_state(),
    {
        GameState::new()
    }
}

/// Decides whether every cell of `board` is taken.
pub fn board_is_full(board: &Vec<Cell>) -> (r: bool)
    ensures
        r == board_full(board@),
{
    let mut i: usize = 0;
    while i < board.len()
        invariant
            i <= board.len(),
            forall|j: int| 0 <= j < i ==> board@[j] != Cell::Empty,
        decreases board.len() - i,
    {
        if matches!(board[i], Cell::Empty) {
            return false;
        }
        i += 1;
    }
    true
}

/// The state after playing `moves` in order from `g`, one `step` per entry.
pub open spec fn run(g: GameView, moves: Seq<int>) -> GameView
    decreases moves.len(),
{
    if moves.len() == 0 {
        g
    } else {
        run(step(g, moves[0]), moves.subrange(1, moves.len() as int))
    }
}

/// The current player alternates strictly: an accepted move that leaves the
/// game in progress passes the turn to the other player, and a move that
/// ends the game (win or draw) leaves the turn where it was. A rejected
/// move changes nothing at all.
pub proof fn lemma_player_alternation(g: GameView, cell: int)
    ensures
        move_accepted(g, cell) && step(g, cell).status == Status::InProgress
            ==> step(g, cell).current_player == other_player(g.current_player),
        move_accepted(g, cell) && step(g, cell).status != Status::InProgress
            ==> step(g, cell).current_player == g.current_player,
        !move_accepted(g, cell) ==> step(g, cell) == g,
{
}

/// A cell, once taken, keeps its mark through every later move: only a
/// reset clears it.
pub proof fn lemma_cell_permanent(g: GameView, cell: int, i: int)
    requires
        g.board.len() == 9,
        0 <= i < 9,
        g.board[i] != Cell::Empty,
    ensures
        step(g, cell).board[i] == g.board[i],
{
    if move_accepted(g, cell) {
        assert(i != cell);
        assert(g.board.update(cell, Cell::Taken(g.current_player))[i] == g.board[i]);
    }
}

/// Once the game has left `InProgress`, no sequence of `attempt_move` calls
/// changes the board, the current player, or the status.
pub proof fn lemma_terminal_state_frozen(g: GameView, moves: Seq<int>)
    requires
        g.status != Status::InProgress,
    ensures
        run(g, moves) == g,
    decreases moves.len(),
{
    if moves.len() > 0 {
        lemma_terminal_state_frozen(g, moves.subrange(1, moves.len() as int));
    }
}

} // verus!
