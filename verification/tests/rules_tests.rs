use tictactoe::rules::{has_winner, is_draw, Cell, Player};

fn board_of(marks: [char; 9]) -> Vec<Cell> {
    let mut board = Vec::new();
    for m in marks {
        board.push(match m {
            'X' => Cell::X,
            'O' => Cell::O,
            _ => Cell::Empty,
        });
    }
    board
}

#[test]
fn empty_board_has_no_winner() {
    let board = board_of([' '; 9]);
    assert!(!has_winner(&board, Player::X));
    assert!(!has_winner(&board, Player::O));
}

#[test]
fn row_win_detected() {
    let board = board_of(['X', 'X', 'X', 'O', 'O', ' ', ' ', ' ', ' ']);
    assert!(has_winner(&board, Player::X));
    assert!(!has_winner(&board, Player::O));
}

#[test]
fn middle_row_win_detected() {
    let board = board_of(['X', 'X', ' ', 'O', 'O', 'O', 'X', ' ', ' ']);
    assert!(has_winner(&board, Player::O));
    assert!(!has_winner(&board, Player::X));
}

#[test]
fn column_win_detected() {
    let board = board_of(['O', 'X', ' ', 'O', 'X', ' ', 'O', ' ', 'X']);
    assert!(has_winner(&board, Player::O));
    assert!(!has_winner(&board, Player::X));
}

#[test]
fn diagonal_win_detected() {
    let board = board_of(['X', 'O', ' ', 'O', 'X', ' ', ' ', ' ', 'X']);
    assert!(has_winner(&board, Player::X));
    assert!(!has_winner(&board, Player::O));
}

#[test]
fn anti_diagonal_win_detected() {
    let board = board_of([' ', 'X', 'O', 'X', 'O', ' ', 'O', ' ', 'X']);
    assert!(has_winner(&board, Player::O));
    assert!(!has_winner(&board, Player::X));
}

#[test]
fn mixed_line_is_no_win() {
    let board = board_of(['X', 'O', 'X', ' ', ' ', ' ', ' ', ' ', ' ']);
    assert!(!has_winner(&board, Player::X));
    assert!(!has_winner(&board, Player::O));
}

#[test]
fn is_draw_false_on_empty_board() {
    let board = board_of([' '; 9]);
    assert!(!is_draw(&board));
}

#[test]
fn is_draw_false_with_one_empty_cell() {
    let board = board_of(['X', 'O', 'X', 'O', 'X', 'O', 'O', 'X', ' ']);
    assert!(!is_draw(&board));
}

#[test]
fn is_draw_true_on_full_board() {
    let board = board_of(['X', 'O', 'X', 'O', 'X', 'O', 'O', 'X', 'O']);
    assert!(is_draw(&board));
}

#[test]
fn player_helpers() {
    assert_eq!(Player::X.other(), Player::O);
    assert_eq!(Player::O.other(), Player::X);
    assert_eq!(Player::X.mark_cell(), Cell::X);
    assert_eq!(Player::O.mark_cell(), Cell::O);
}
