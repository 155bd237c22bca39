use ox_game::board::{is_won, CellState};

const E: CellState = CellState::Empty;
const O: CellState = CellState::PlayerO;
const X: CellState = CellState::PlayerX;

const LINES: [[usize; 3]; 8] = [
    [0, 1, 2],
    [3, 4, 5],
    [6, 7, 8],
    [0, 3, 6],
    [1, 4, 7],
    [2, 5, 8],
    [0, 4, 8],
    [2, 4, 6],
];

#[test]
fn empty_board_is_not_won() {
    assert!(!is_won(&[E; 9]));
}

#[test]
fn each_line_wins_for_each_player() {
    for line in LINES.iter() {
        for &player in [O, X].iter() {
            let mut cells = [E; 9];
            for &cell in line.iter() {
                cells[cell] = player;
            }
            assert!(is_won(&cells), "{:?} for {:?}", line, player);
        }
    }
}

#[test]
fn two_of_a_line_do_not_win() {
    for line in LINES.iter() {
        for skip in 0..3 {
            let mut cells = [E; 9];
            for (k, &cell) in line.iter().enumerate() {
                if k != skip {
                    cells[cell] = O;
                }
            }
            assert!(!is_won(&cells), "{:?} without {}", line, skip);
        }
    }
}

#[test]
fn a_mixed_line_does_not_win() {
    for line in LINES.iter() {
        let mut cells = [E; 9];
        cells[line[0]] = O;
        cells[line[1]] = X;
        cells[line[2]] = O;
        assert!(!is_won(&cells), "{:?}", line);
    }
}

#[test]
fn three_marks_off_every_line_do_not_win() {
    assert!(!is_won(&[E, E, O, E, O, E, E, O, E]));
    assert!(!is_won(&[X, E, E, E, E, X, E, X, E]));
    assert!(!is_won(&[O, O, E, O, E, E, E, E, E]));
}

#[test]
fn exactly_the_eight_lines_win() {
    for a in 0..9 {
        for b in (a + 1)..9 {
            for c in (b + 1)..9 {
                let mut cells = [E; 9];
                cells[a] = X;
                cells[b] = X;
                cells[c] = X;
                let listed = LINES.iter().any(|line| *line == [a, b, c]);
                assert_eq!(is_won(&cells), listed, "{} {} {}", a, b, c);
            }
        }
    }
}

#[test]
fn full_board_without_a_line_is_not_won() {
    assert!(!is_won(&[O, X, O, O, X, X, X, O, O]));
}

#[test]
fn full_board_with_a_line_is_won() {
    assert!(is_won(&[O, X, O, O, X, X, O, O, X]));
}

#[test]
fn a_line_among_other_marks_wins() {
    assert!(is_won(&[O, O, O, X, X, E, E, E, E]));
    assert!(is_won(&[O, X, O, O, X, E, E, X, E]));
}

#[test]
fn glyphs() {
    assert_eq!(CellState::Empty.glyph(), "\u{3000}");
    assert_eq!(CellState::PlayerO.glyph(), "O");
    assert_eq!(CellState::PlayerX.glyph(), "X");
}
