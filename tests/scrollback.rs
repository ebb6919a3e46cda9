use console_session::scrollback::RowOutOfRange;
use console_session::session::Game;

fn game_with(n: usize) -> Game {
    let mut g = Game::new();
    for i in 0..n {
        g.submit(format!("c{}", i), Some(format!("r{}", i)));
    }
    g
}

#[test]
fn rows_alternate_response_then_command() {
    let g = game_with(3);
    assert_eq!(g.total_rows(), 6);
    for i in 0..3 {
        assert_eq!(g.row_at(2 * i), Ok(format!("r{}", i)));
        assert_eq!(g.row_at(2 * i + 1), Ok(format!("c{}", i)));
    }
}

#[test]
fn row_past_end_is_an_error() {
    let g = game_with(2);
    assert_eq!(g.row_at(4), Err(RowOutOfRange { index: 4 }));
    assert_eq!(g.row_at(usize::MAX), Err(RowOutOfRange { index: usize::MAX }));
    let empty = Game::new();
    assert_eq!(empty.total_rows(), 0);
    assert_eq!(empty.row_at(0), Err(RowOutOfRange { index: 0 }));
}

#[test]
fn slice_matches_row_at() {
    let g = game_with(4);
    let s = g.visible_slice(2, 3);
    assert_eq!(s, vec!["r1".to_string(), "c1".to_string(), "r2".to_string()]);
    for (j, row) in s.iter().enumerate() {
        assert_eq!(g.row_at(2 + j), Ok(row.clone()));
    }
}

#[test]
fn slice_near_end_is_short() {
    let g = game_with(2);
    assert_eq!(g.visible_slice(3, 10), vec!["c1".to_string()]);
    assert_eq!(g.visible_slice(4, 10), Vec::<String>::new());
    assert_eq!(g.visible_slice(100, usize::MAX), Vec::<String>::new());
    assert_eq!(g.visible_slice(0, 0), Vec::<String>::new());
    assert_eq!(g.visible_slice(1, usize::MAX).len(), 3);
}

#[test]
fn slice_of_long_history_reads_only_visible_rows() {
    let g = game_with(200_000);
    let s = g.visible_slice(399_990, 20);
    assert_eq!(s.len(), 10);
    assert_eq!(s[0], "r199995");
    assert_eq!(s[9], "c199999");
}

#[test]
fn anchor_follows_bottom_under_auto_scroll() {
    let g = game_with(10);
    assert_eq!(g.anchored_first(3, 5, true), 15);
    assert_eq!(g.anchored_first(3, 5, false), 3);
    assert_eq!(g.anchored_first(0, 50, true), 0);
    let s = g.visible_slice(g.anchored_first(0, 5, true), 5);
    assert_eq!(s.last(), Some(&"c9".to_string()));
}
