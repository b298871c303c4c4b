use mesh::board::{coords, count_marks, empty_cells, get_winner, Board, Player};

fn empty_board() -> Board {
    [[None; 3]; 3]
}

#[test]
fn coords_enumerates_row_major() {
    let c = coords();
    assert_eq!(c.len(), 9);
    assert_eq!(
        c,
        vec![
            (0, 0),
            (0, 1),
            (0, 2),
            (1, 0),
            (1, 1),
            (1, 2),
            (2, 0),
            (2, 1),
            (2, 2)
        ]
    );
}

#[test]
fn no_winner_on_empty_board() {
    assert!(get_winner(empty_board()).is_none());
}

#[test]
fn row_win_is_reported_with_its_cells() {
    let mut b = empty_board();
    b[1][0] = Some(Player::User);
    b[1][1] = Some(Player::User);
    b[1][2] = Some(Player::User);
    b[0][0] = Some(Player::Computer);
    let (p, cells) = get_winner(b).unwrap();
    assert_eq!(p, Player::User);
    assert_eq!(cells, [(1, 0), (1, 1), (1, 2)]);
}

#[test]
fn column_win_is_reported() {
    let mut b = empty_board();
    b[0][2] = Some(Player::Computer);
    b[1][2] = Some(Player::Computer);
    b[2][2] = Some(Player::Computer);
    let (p, cells) = get_winner(b).unwrap();
    assert_eq!(p, Player::Computer);
    assert_eq!(cells, [(0, 2), (1, 2), (2, 2)]);
}

#[test]
fn diagonal_win_is_reported() {
    let mut b = empty_board();
    b[0][0] = Some(Player::User);
    b[1][1] = Some(Player::User);
    b[2][2] = Some(Player::User);
    let (p, cells) = get_winner(b).unwrap();
    assert_eq!(p, Player::User);
    assert_eq!(cells, [(0, 0), (1, 1), (2, 2)]);
}

#[test]
fn anti_diagonal_win_is_reported() {
    let mut b = empty_board();
    b[0][2] = Some(Player::Computer);
    b[1][1] = Some(Player::Computer);
    b[2][0] = Some(Player::Computer);
    let (p, cells) = get_winner(b).unwrap();
    assert_eq!(p, Player::Computer);
    assert_eq!(cells, [(0, 2), (1, 1), (2, 0)]);
}

#[test]
fn earlier_line_in_scan_order_wins_ties() {
    // Both the top row and the main diagonal are full: the row is first
    // in scan order.
    let mut b = empty_board();
    b[0][0] = Some(Player::User);
    b[0][1] = Some(Player::User);
    b[0][2] = Some(Player::User);
    b[1][1] = Some(Player::User);
    b[2][2] = Some(Player::User);
    let (_, cells) = get_winner(b).unwrap();
    assert_eq!(cells, [(0, 0), (0, 1), (0, 2)]);
}

#[test]
fn almost_won_lines_do_not_count() {
    let mut b = empty_board();
    b[0][0] = Some(Player::User);
    b[0][1] = Some(Player::User);
    b[0][2] = Some(Player::Computer);
    b[1][1] = Some(Player::Computer);
    assert!(get_winner(b).is_none());
}

#[test]
fn empty_cells_lists_unmarked_cells_row_major() {
    let mut b = empty_board();
    b[0][1] = Some(Player::User);
    b[2][2] = Some(Player::Computer);
    assert_eq!(
        empty_cells(b),
        vec![(0, 0), (0, 2), (1, 0), (1, 1), (1, 2), (2, 0), (2, 1)]
    );
    assert_eq!(empty_cells(empty_board()).len(), 9);
}

#[test]
fn count_marks_counts_per_player() {
    let mut b = empty_board();
    b[0][1] = Some(Player::User);
    b[1][1] = Some(Player::User);
    b[2][2] = Some(Player::Computer);
    assert_eq!(count_marks(b, Player::User), 2);
    assert_eq!(count_marks(b, Player::Computer), 1);
    assert_eq!(count_marks(empty_board(), Player::User), 0);
}
