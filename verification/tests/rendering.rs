use bestle::result_generator::{
    draw_line, draw_table, green_row, push_line, push_table, random_row, Colours,
};

#[test]
fn row_text_has_no_separator() {
    let mut text = String::from(">");
    push_line(&mut text, &vec![Colours::Red, Colours::Grey, Colours::Green], false);
    assert_eq!(text, ">🟥⬛🟩");
}

#[test]
fn column_text_breaks_after_every_block() {
    let mut text = String::from(">");
    push_line(&mut text, &vec![Colours::Yellow, Colours::Grey, Colours::Green], true);
    assert_eq!(text, ">🟨\n⬛\n🟩\n");
}

#[test]
fn empty_line_adds_nothing() {
    let mut text = String::from("kept");
    push_line(&mut text, &Vec::new(), false);
    push_line(&mut text, &Vec::new(), true);
    assert_eq!(text, "kept");
}

#[test]
fn single_block_row_and_column() {
    let mut row = String::new();
    push_line(&mut row, &vec![Colours::Green], false);
    assert_eq!(row, "🟩");
    let mut column = String::new();
    push_line(&mut column, &vec![Colours::Green], true);
    assert_eq!(column, "🟩\n");
}

#[test]
fn table_text_breaks_between_rows_only() {
    let rows = vec![
        vec![Colours::Red, Colours::Yellow],
        vec![Colours::Grey, Colours::Green],
        vec![Colours::Green, Colours::Green],
    ];
    let mut text = String::from(">");
    push_table(&mut text, &rows);
    assert_eq!(text, ">🟥🟨\n⬛🟩\n🟩🟩");
}

#[test]
fn table_of_one_row_has_no_break() {
    let mut text = String::new();
    push_table(&mut text, &vec![vec![Colours::Grey, Colours::Red, Colours::Red]]);
    assert_eq!(text, "⬛🟥🟥");
}

#[test]
fn table_without_rows_adds_nothing() {
    let mut text = String::from("kept");
    push_table(&mut text, &Vec::new());
    assert_eq!(text, "kept");
}

#[test]
fn green_row_is_green_throughout() {
    assert_eq!(green_row(0), Vec::<Colours>::new());
    assert_eq!(green_row(3), vec![Colours::Green; 3]);
    assert_eq!(green_row(255).len(), 255);
}

#[test]
fn random_row_has_the_width_and_the_colours() {
    let colours = vec![Colours::Green, Colours::Grey];
    for width in [0u8, 1, 2, 12, 255] {
        let row = random_row(&colours, width);
        assert_eq!(row.len(), width as usize);
        assert!(row.iter().all(|c| colours.contains(c)));
    }
}

#[test]
fn drawn_line_keeps_green_for_the_end() {
    let colours = vec![Colours::Green, Colours::Red, Colours::Yellow, Colours::Grey];
    for _ in 0..100 {
        let cells = draw_line(&colours, 12, true);
        assert_eq!(cells.len(), 12);
        assert!(cells[..11].iter().all(|c| *c != Colours::Green));
        assert_eq!(cells[11], Colours::Green);
    }
}

#[test]
fn drawn_line_without_win_ends_in_any_colour() {
    let colours = vec![Colours::Green, Colours::Grey];
    let mut green_last = false;
    let mut grey_last = false;
    for _ in 0..400 {
        let cells = draw_line(&colours, 3, false);
        assert_eq!(cells.len(), 3);
        assert_eq!(cells[0], Colours::Grey);
        assert_eq!(cells[1], Colours::Grey);
        match cells[2] {
            Colours::Green => green_last = true,
            Colours::Grey => grey_last = true,
            other => panic!("{:?} is not in the palette", other),
        }
    }
    assert!(green_last && grey_last);
}

#[test]
fn drawn_line_of_one_block_needs_no_filler() {
    let green_only = vec![Colours::Green];
    assert_eq!(draw_line(&green_only, 1, true), vec![Colours::Green]);
    assert_eq!(draw_line(&green_only, 1, false), vec![Colours::Green]);
}

#[test]
fn drawn_table_has_its_shape() {
    let colours = vec![Colours::Green, Colours::Red];
    for winning in [true, false] {
        let rows = draw_table(&colours, 4, 3, winning);
        assert_eq!(rows.len(), 3);
        for row in &rows {
            assert_eq!(row.len(), 4);
            assert!(row.iter().all(|c| colours.contains(c)));
        }
        if winning {
            assert_eq!(rows[2], vec![Colours::Green; 4]);
        }
    }
}

#[test]
fn drawn_table_may_show_green_before_the_end() {
    let colours = vec![Colours::Green, Colours::Red];
    let mut early_green = false;
    for _ in 0..200 {
        let rows = draw_table(&colours, 3, 3, true);
        if rows[..2].iter().any(|row| row.contains(&Colours::Green)) {
            early_green = true;
        }
    }
    assert!(early_green);
}
