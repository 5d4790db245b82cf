use tic_tac_toe::{check_winner, Cell, Player};

#[test]
fn test_horizontal_winner() {
    let mut board = vec![Cell::Empty; 9];
    board[0] = Cell::Taken(Player::X);
    board[1] = Cell::Taken(Player::X);
    board[2] = Cell::Taken(Player::X);
    assert!(check_winner(&board, Player::X));
    assert!(!check_winner(&board, Player::O));
}

#[test]
fn test_vertical_winner() {
    let mut board = vec![Cell::Empty; 9];
    board[1] = Cell::Taken(Player::O);
    board[4] = Cell::Taken(Player::O);
    board[7] = Cell::Taken(Player::O);
    assert!(check_winner(&board, Player::O));
    assert!(!check_winner(&board, Player::X));
}

#[test]
fn test_diagonal_winner() {
    let mut board = vec![Cell::Empty; 9];
    board[0] = Cell::Taken(Player::X);
    board[4] = Cell::Taken(Player::X);
    board[8] = Cell::Taken(Player::X);
    assert!(check_winner(&board, Player::X));
}

#[test]
fn test_no_winner() {
    let board = vec![
        Cell::Taken(Player::X),
        Cell::Taken(Player::O),
        Cell::Taken(Player::X),
        Cell::Taken(Player::O),
        Cell::Taken(Player::X),
        Cell::Taken(Player::O),
        Cell::Taken(Player::O),
        Cell::Taken(Player::X),
        Cell::Taken(Player::O),
    ];
    assert!(!check_winner(&board, Player::X));
    assert!(!check_winner(&board, Player::O));
}

#[test]
fn test_full_board_no_winner() {
    let board = vec![
        Cell::Taken(Player::X),
        Cell::Taken(Player::O),
        Cell::Taken(Player::X),
        Cell::Taken(Player::O),
        Cell::Taken(Player::X),
        Cell::Taken(Player::O),
        Cell::Taken(Player::O),
        Cell::Taken(Player::X),
        Cell::Taken(Player::O),
    ];
    assert!(!check_winner(&board, Player::X));
    assert!(!check_winner(&board, Player::O));
    assert!(board.iter().all(|&c| c != Cell::Empty));
}

// The eight winning triples, used to cross-check `check_winner` against an
// independent enumeration over every possible board.
const TRIPLES: [[usize; 3]; 8] = [
    [0, 1, 2],
    [3, 4, 5],
    [6, 7, 8],
    [0, 3, 6],
    [1, 4, 7],
    [2, 5, 8],
    [0, 4, 8],
    [2, 4, 6],
];

fn expected_winner(board: &[Cell; 9], player: Player) -> bool {
    TRIPLES
        .iter()
        .any(|combo| combo.iter().all(|&i| board[i] == Cell::Taken(player)))
}

#[test]
fn test_winner_exhaustive_all_boards() {
    // Every assignment of {Empty, X, O} to the nine cells.
    for code in 0..19683u32 {
        let mut n = code;
        let mut board = [Cell::Empty; 9];
        for cell in board.iter_mut() {
            *cell = match n % 3 {
                0 => Cell::Empty,
                1 => Cell::Taken(Player::X),
                _ => Cell::Taken(Player::O),
            };
            n /= 3;
        }
        let v: Vec<Cell> = board.to_vec();
        assert_eq!(check_winner(&v, Player::X), expected_winner(&board, Player::X));
        assert_eq!(check_winner(&v, Player::O), expected_winner(&board, Player::O));
    }
}
