use tictactoe::input::{command_for_key, Command, Direction, Key};

#[test]
fn arrow_keys_move_the_cursor() {
    assert_eq!(command_for_key(Key::Up), Command::MoveCursor(Direction::Up));
    assert_eq!(
        command_for_key(Key::Down),
        Command::MoveCursor(Direction::Down)
    );
    assert_eq!(
        command_for_key(Key::Left),
        Command::MoveCursor(Direction::Left)
    );
    assert_eq!(
        command_for_key(Key::Right),
        Command::MoveCursor(Direction::Right)
    );
}

#[test]
fn vi_keys_alias_the_arrows() {
    assert_eq!(
        command_for_key(Key::Char('k')),
        Command::MoveCursor(Direction::Up)
    );
    assert_eq!(
        command_for_key(Key::Char('j')),
        Command::MoveCursor(Direction::Down)
    );
    assert_eq!(
        command_for_key(Key::Char('h')),
        Command::MoveCursor(Direction::Left)
    );
    assert_eq!(
        command_for_key(Key::Char('l')),
        Command::MoveCursor(Direction::Right)
    );
}

#[test]
fn confirm_aliases() {
    assert_eq!(command_for_key(Key::Enter), Command::ConfirmSelection);
    assert_eq!(command_for_key(Key::Char('x')), Command::ConfirmSelection);
    assert_eq!(command_for_key(Key::Char('o')), Command::ConfirmSelection);
}

#[test]
fn reset_and_quit_keys() {
    assert_eq!(command_for_key(Key::Char('r')), Command::Reset);
    assert_eq!(command_for_key(Key::Char('q')), Command::Quit);
}

#[test]
fn unbound_keys_are_ignored() {
    assert_eq!(command_for_key(Key::Char('z')), Command::Ignored);
    assert_eq!(command_for_key(Key::Char('0')), Command::Ignored);
    assert_eq!(command_for_key(Key::Other), Command::Ignored);
}
