use commitz::commit::navigation::{
    handle_input, handle_prompt_input, move_down, move_up, visible_entries, EditAction, Key,
    SelectOutcome, SelectionList,
};

fn ch(c: char) -> Key {
    Key::Char { ch: c, control: false }
}

#[test]
fn move_down_moves_highlight_until_middle_row() {
    let (mut s, mut c, mut o) = (0usize, 0usize, 0usize);
    move_down(&mut s, &mut c, &mut o, 9, 7);
    assert_eq!((s, c, o), (1, 1, 0));
    move_down(&mut s, &mut c, &mut o, 9, 7);
    move_down(&mut s, &mut c, &mut o, 9, 7);
    assert_eq!((s, c, o), (3, 3, 0));
    move_down(&mut s, &mut c, &mut o, 9, 7);
    assert_eq!((s, c, o), (4, 3, 1));
}

#[test]
fn move_down_wraps_at_end_of_list() {
    let (mut s, mut c, mut o) = (8usize, 3usize, 5usize);
    move_down(&mut s, &mut c, &mut o, 9, 7);
    assert_eq!((s, c, o), (0, 3, 6));
    let (mut s, mut c, mut o) = (8usize, 3usize, 8usize);
    move_down(&mut s, &mut c, &mut o, 9, 7);
    assert_eq!((s, c, o), (0, 3, 0));
}

#[test]
fn move_up_from_top_scrolls_window_back() {
    let (mut s, mut c, mut o) = (0usize, 0usize, 0usize);
    move_up(&mut s, &mut c, &mut o, 9, 7);
    assert_eq!((s, c, o), (8, 0, 8));
}

#[test]
fn move_up_moves_highlight_when_below_middle() {
    let (mut s, mut c, mut o) = (5usize, 5usize, 0usize);
    move_up(&mut s, &mut c, &mut o, 9, 7);
    assert_eq!((s, c, o), (4, 4, 0));
    move_up(&mut s, &mut c, &mut o, 9, 7);
    assert_eq!((s, c, o), (3, 3, 0));
    move_up(&mut s, &mut c, &mut o, 9, 7);
    assert_eq!((s, c, o), (2, 3, 8));
}

#[test]
fn down_then_up_restores_selected_index() {
    for start in 0..9usize {
        for cursor in 0..7usize {
            for offset in 0..9usize {
                let (mut s, mut c, mut o) = (start, cursor, offset);
                move_down(&mut s, &mut c, &mut o, 9, 7);
                move_up(&mut s, &mut c, &mut o, 9, 7);
                assert_eq!(s, start);
            }
        }
    }
}

#[test]
fn selected_index_cycles_through_all_nine_entries() {
    let (mut s, mut c, mut o) = (0usize, 0usize, 0usize);
    let mut seen = vec![];
    for _ in 0..9 {
        seen.push(s);
        move_down(&mut s, &mut c, &mut o, 9, 7);
    }
    let mut sorted = seen.clone();
    sorted.sort();
    assert_eq!(sorted, vec![0, 1, 2, 3, 4, 5, 6, 7, 8]);
    assert_eq!(s, 0);
}

#[test]
fn indices_stay_in_bounds_over_mixed_moves() {
    for len in 1..12usize {
        for window in 1..9usize {
            let (mut s, mut c, mut o) = (0usize, 0usize, 0usize);
            for step in 0..60usize {
                if (step * 7 + len) % 3 == 0 {
                    move_up(&mut s, &mut c, &mut o, len, window);
                } else {
                    move_down(&mut s, &mut c, &mut o, len, window);
                }
                assert!(s < len);
                assert!(o < len);
                assert!(c < window);
            }
        }
    }
}

#[test]
fn visible_entries_wrap_for_long_list() {
    let rows = visible_entries(2, 7, 9, 7);
    let idx: Vec<usize> = rows.iter().map(|r| r.0).collect();
    assert_eq!(idx, vec![7, 8, 0, 1, 2, 3, 4]);
    let marked: Vec<bool> = rows.iter().map(|r| r.1).collect();
    assert_eq!(marked, vec![false, false, false, false, true, false, false]);
}

#[test]
fn visible_entries_ignore_offset_when_list_fits() {
    let rows = visible_entries(1, 1, 2, 2);
    assert_eq!(rows, vec![(0, false), (1, true)]);
    let rows = visible_entries(0, 0, 3, 5);
    assert_eq!(rows, vec![(0, true), (1, false), (2, false)]);
}

#[test]
fn handle_input_dispatches_keys() {
    let (mut s, mut c, mut o) = (0usize, 0usize, 0usize);
    assert_eq!(handle_input(Key::Down, &mut s, &mut c, &mut o, 9, 7), SelectOutcome::Pending);
    assert_eq!((s, c, o), (1, 1, 0));
    assert_eq!(handle_input(Key::Up, &mut s, &mut c, &mut o, 9, 7), SelectOutcome::Pending);
    assert_eq!((s, c, o), (0, 1, 8));
    assert_eq!(handle_input(Key::Esc, &mut s, &mut c, &mut o, 9, 7), SelectOutcome::Pending);
    assert_eq!(handle_input(ch('c'), &mut s, &mut c, &mut o, 9, 7), SelectOutcome::Pending);
    move_down(&mut s, &mut c, &mut o, 9, 7);
    assert_eq!(handle_input(Key::Enter, &mut s, &mut c, &mut o, 9, 7), SelectOutcome::Chosen(1));
    let ctrl_c = Key::Char { ch: 'c', control: true };
    assert_eq!(handle_input(ctrl_c, &mut s, &mut c, &mut o, 9, 7), SelectOutcome::Abort);
    assert_eq!((s, c, o), (1, 2, 8));
}

#[test]
fn prompt_input_edits_buffer() {
    let mut buf = String::new();
    assert_eq!(handle_prompt_input(&mut buf, ch('h')), EditAction::Echo('h'));
    assert_eq!(handle_prompt_input(&mut buf, ch('é')), EditAction::Echo('é'));
    assert_eq!(handle_prompt_input(&mut buf, ch('y')), EditAction::Echo('y'));
    assert_eq!(buf, "héy");
    assert_eq!(handle_prompt_input(&mut buf, Key::Backspace), EditAction::Erase);
    assert_eq!(buf, "hé");
    assert_eq!(handle_prompt_input(&mut buf, Key::Up), EditAction::Ignore);
    assert_eq!(handle_prompt_input(&mut buf, Key::Enter), EditAction::Finish);
    assert_eq!(buf, "hé");
}

#[test]
fn prompt_backspace_on_empty_buffer_is_ignored() {
    let mut buf = String::new();
    assert_eq!(handle_prompt_input(&mut buf, Key::Backspace), EditAction::Ignore);
    assert_eq!(buf, "");
}

#[test]
fn prompt_escape_clears_and_ctrl_c_aborts() {
    let mut buf = String::from("abc");
    let ctrl_c = Key::Char { ch: 'c', control: true };
    assert_eq!(handle_prompt_input(&mut buf, ctrl_c), EditAction::Abort);
    assert_eq!(buf, "abc");
    assert_eq!(handle_prompt_input(&mut buf, Key::Esc), EditAction::Finish);
    assert_eq!(buf, "");
    let ctrl_a = Key::Char { ch: 'a', control: true };
    assert_eq!(handle_prompt_input(&mut buf, ctrl_a), EditAction::Echo('a'));
    assert_eq!(buf, "a");
}

#[test]
fn selection_list_rejects_empty_list_and_window() {
    assert!(SelectionList::new(0, 7).is_none());
    assert!(SelectionList::new(9, 0).is_none());
    assert!(SelectionList::new(1, 1).is_some());
}

#[test]
fn selection_list_follows_keys() {
    let mut list = SelectionList::new(9, 7).unwrap();
    assert_eq!(list.selected(), 0);
    for _ in 0..5 {
        assert_eq!(list.press(Key::Down), SelectOutcome::Pending);
    }
    assert_eq!(list.selected(), 5);
    let idx: Vec<usize> = list.visible().iter().map(|r| r.0).collect();
    assert_eq!(idx, vec![2, 3, 4, 5, 6, 7, 8]);
    assert_eq!(list.press(Key::Up), SelectOutcome::Pending);
    assert_eq!(list.press(Key::Enter), SelectOutcome::Chosen(4));
    assert_eq!(list.press(Key::Char { ch: 'c', control: true }), SelectOutcome::Abort);
    assert_eq!(list.selected(), 4);
}

#[test]
fn selection_list_of_two_never_scrolls_its_view() {
    let mut list = SelectionList::new(2, 2).unwrap();
    list.press(Key::Down);
    assert_eq!(list.visible(), vec![(0, false), (1, true)]);
    list.press(Key::Down);
    assert_eq!(list.visible(), vec![(0, true), (1, false)]);
    assert_eq!(list.press(Key::Enter), SelectOutcome::Chosen(0));
}
