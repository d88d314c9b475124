use ascii_wanderer::gamearea::arena::{Arena, SYMBOL_COUNT};

const SYMBOLS: [&str; 11] = [".  ", "Q", "V", "B", "$", "*", "X", "&", "%", "@", "C"];

#[test]
fn symbol_texts_by_index() {
    for (i, s) in SYMBOLS.iter().enumerate() {
        assert_eq!(Arena::symbol(i), s.to_string());
    }
    assert_eq!(SYMBOL_COUNT, 11);
}

#[test]
fn weights_favour_empty_ground() {
    assert_eq!(Arena::weights(), vec![950, 5, 5, 5, 5, 5, 5, 5, 1, 5, 5]);
    assert_eq!(Arena::weights().iter().sum::<i32>(), 996);
}

#[test]
fn new_board_has_rows_times_columns_symbols() {
    let board = Arena::new(3, 4);
    assert_eq!(board.len(), 12);
    for cell in &board {
        assert!(SYMBOLS.contains(&cell.as_str()), "unexpected cell {:?}", cell);
    }
}

#[test]
fn new_board_of_game_size() {
    let board = Arena::new(50, 100);
    assert_eq!(board.len(), 5000);
    assert!(board.iter().all(|c| SYMBOLS.contains(&c.as_str())));
}

#[test]
fn cells_follow_draws_in_order() {
    let draws = [0usize, 3, 10, 8, 0, 1];
    let cells = Arena::from_draws(&draws);
    assert_eq!(cells, vec![".  ", "B", "C", "%", ".  ", "Q"]);
    assert!(Arena::from_draws(&[]).is_empty());
}

#[test]
fn empty_board() {
    assert!(Arena::new(0, 7).is_empty());
    assert!(Arena::new(7, 0).is_empty());
}

#[test]
fn arena_struct_holds_cells() {
    let a = Arena { arena: Arena::new(2, 2) };
    assert_eq!(a.arena.len(), 4);
}
