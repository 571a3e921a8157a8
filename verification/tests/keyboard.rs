use global_overlay::keyboard::{check_searchable, find_tab_keycode, XK_TAB};

#[test]
fn tab_is_found_in_its_row() {
    let keysyms = vec![1, 2, 3, 4, 5, XK_TAB, 7, 8];
    assert!(check_searchable(8, 2, &keysyms));
    assert_eq!(find_tab_keycode(8, 2, &keysyms), Some(10));
    assert_eq!(find_tab_keycode(8, 1, &keysyms), Some(13));
    assert_eq!(find_tab_keycode(8, 255, &keysyms), Some(8));
}

#[test]
fn first_of_several_tabs_counts() {
    let keysyms = vec![1, 2, 3, 4, XK_TAB, 6, XK_TAB, XK_TAB];
    assert_eq!(find_tab_keycode(8, 3, &keysyms), Some(9));
}

#[test]
fn short_last_row_is_searched() {
    let keysyms = vec![1, 2, 3, XK_TAB];
    assert_eq!(find_tab_keycode(20, 3, &keysyms), Some(21));
}

#[test]
fn keyboard_without_tab() {
    assert_eq!(find_tab_keycode(8, 4, &vec![1, 2, 3, 4, 5]), None);
    assert_eq!(find_tab_keycode(8, 4, &Vec::new()), None);
}

#[test]
fn empty_rows_and_overlong_mappings_are_refused() {
    assert!(!check_searchable(8, 0, &vec![XK_TAB]));
    let mut keysyms = vec![0; 250];
    keysyms.push(XK_TAB);
    assert!(!check_searchable(8, 1, &keysyms));
    assert!(check_searchable(5, 1, &keysyms));
    assert_eq!(find_tab_keycode(5, 1, &keysyms), Some(255));
}

#[test]
fn rows_are_counted_in_a_byte() {
    let mut keysyms = vec![0; 258];
    keysyms.push(XK_TAB);
    assert!(check_searchable(8, 1, &keysyms));
    assert_eq!(find_tab_keycode(8, 1, &keysyms), Some(10));
}

#[test]
fn search_agrees_with_chunks() {
    for per in 1..7u8 {
        for at in 0..40usize {
            let mut keysyms = vec![0u32; 45];
            keysyms[at] = XK_TAB;
            let expected = keysyms
                .chunks(per as usize)
                .enumerate()
                .find_map(|(i, syms)| if syms.contains(&0xff09) { Some(8 + i as u8) } else { None });
            assert_eq!(find_tab_keycode(8, per, &keysyms), expected);
        }
    }
}
