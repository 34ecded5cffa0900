use objdiff::cmd::diff::{
    find_function, shown_rows, symbol_not_found, Args, Input, KeyCode, Motion, ObjSection,
    ObjSectionKind, ObjSymbol, Pager, HEADER_ROWS, WHEEL_ROWS,
};

fn section(kind: ObjSectionKind, names: &[&str]) -> ObjSection {
    ObjSection {
        kind,
        symbols: names
            .iter()
            .enumerate()
            .map(|(i, n)| ObjSymbol { name: n.to_string(), instructions: i + 1 })
            .collect(),
    }
}

fn key(code: KeyCode) -> Input {
    Input::Key { code, shift: false, active: true }
}

#[test]
fn args_hold_the_two_objects_and_the_symbol() {
    let args = Args {
        target: "build/asm/foo.o".to_string(),
        base: "build/src/foo.o".to_string(),
        symbol: "main".to_string(),
    };
    assert_eq!(args.target, "build/asm/foo.o");
    assert_eq!(args.base, "build/src/foo.o");
    assert_eq!(args.symbol, "main");
}

#[test]
fn find_function_takes_the_first_match_in_code_sections() {
    let sections = vec![
        section(ObjSectionKind::Data, &["main", "table"]),
        section(ObjSectionKind::Code, &["init", "main", "exit", "main"]),
        section(ObjSectionKind::Bss, &["main"]),
        section(ObjSectionKind::Code, &["main", "late"]),
    ];
    assert_eq!(find_function(&sections, "main"), Some((1, 1)));
    assert_eq!(find_function(&sections, "init"), Some((1, 0)));
    assert_eq!(find_function(&sections, "late"), Some((3, 1)));
    assert_eq!(find_function(&sections, "table"), None);
    assert_eq!(find_function(&sections, "mai"), None);
    assert_eq!(find_function(&sections, "main "), None);
    assert_eq!(find_function(&sections, ""), None);
}

#[test]
fn find_function_in_an_empty_object() {
    assert_eq!(find_function(&Vec::new(), "main"), None);
    let sections = vec![section(ObjSectionKind::Code, &[])];
    assert_eq!(find_function(&sections, "main"), None);
}

#[test]
fn find_function_compares_whole_names() {
    let sections = vec![section(ObjSectionKind::Code, &["f\u{fc}r", "fur", "f\u{fc}r2"])];
    assert_eq!(find_function(&sections, "fur"), Some((0, 1)));
    assert_eq!(find_function(&sections, "f\u{fc}r"), Some((0, 0)));
    assert_eq!(find_function(&sections, "f\u{fc}r2"), Some((0, 2)));
}

#[test]
fn shown_rows_is_the_longer_side() {
    assert_eq!(shown_rows(Some(3), Some(7)), Some(7));
    assert_eq!(shown_rows(Some(7), Some(3)), Some(7));
    assert_eq!(shown_rows(Some(4), Some(4)), Some(4));
    assert_eq!(shown_rows(Some(5), None), Some(5));
    assert_eq!(shown_rows(None, Some(6)), Some(6));
    assert_eq!(shown_rows(Some(0), None), Some(0));
    assert_eq!(shown_rows(None, None), None);
}

#[test]
fn symbol_not_found_names_the_symbol() {
    assert_eq!(symbol_not_found("main"), "Symbol not found: main");
    assert_eq!(symbol_not_found(""), "Symbol not found: ");
}

#[test]
fn page_size_leaves_out_the_header() {
    assert_eq!(HEADER_ROWS, 2);
    assert_eq!(Pager::page_size(24), 22);
    assert_eq!(Pager::page_size(2), 0);
    assert_eq!(Pager::page_size(1), 0);
    assert_eq!(Pager::page_size(0), 0);
    assert_eq!(Pager::page_size(u16::MAX), 65533);
}

#[test]
fn key_bindings() {
    let per_page = 20;
    assert_eq!(Pager::motion(key(KeyCode::Esc), per_page), Motion::Quit);
    assert_eq!(Pager::motion(key(KeyCode::Char('q')), per_page), Motion::Quit);
    assert_eq!(Pager::motion(key(KeyCode::PageUp), per_page), Motion::Up(20));
    assert_eq!(Pager::motion(key(KeyCode::PageDown), per_page), Motion::Down(20));
    assert_eq!(Pager::motion(key(KeyCode::Char(' ')), per_page), Motion::Down(20));
    let shift_space = Input::Key { code: KeyCode::Char(' '), shift: true, active: true };
    assert_eq!(Pager::motion(shift_space, per_page), Motion::Up(20));
    assert_eq!(Pager::motion(key(KeyCode::Down), per_page), Motion::Down(1));
    assert_eq!(Pager::motion(key(KeyCode::Char('j')), per_page), Motion::Down(1));
    assert_eq!(Pager::motion(key(KeyCode::Up), per_page), Motion::Up(1));
    assert_eq!(Pager::motion(key(KeyCode::Char('k')), per_page), Motion::Up(1));
    assert_eq!(Pager::motion(key(KeyCode::Char('g')), per_page), Motion::Top);
    assert_eq!(Pager::motion(key(KeyCode::Char('G')), per_page), Motion::Bottom);
    assert_eq!(Pager::motion(key(KeyCode::Char('x')), per_page), Motion::Stay);
    assert_eq!(Pager::motion(key(KeyCode::Char('Q')), per_page), Motion::Stay);
    assert_eq!(Pager::motion(key(KeyCode::Other), per_page), Motion::Stay);
    assert_eq!(WHEEL_ROWS, 3);
    assert_eq!(Pager::motion(Input::ScrollDown, per_page), Motion::Down(3));
    assert_eq!(Pager::motion(Input::ScrollUp, per_page), Motion::Up(3));
    assert_eq!(Pager::motion(Input::Resize, per_page), Motion::Redraw);
    assert_eq!(Pager::motion(Input::Other, per_page), Motion::Stay);
}

#[test]
fn released_keys_do_nothing() {
    for code in [KeyCode::Esc, KeyCode::PageDown, KeyCode::Char('q'), KeyCode::Char('G')] {
        let released = Input::Key { code, shift: false, active: false };
        assert_eq!(Pager::motion(released, 20), Motion::Stay);
        let mut pager = Pager { skip: 5, redraw: false, max_len: 100 };
        assert!(!pager.handle(released, 20));
        assert_eq!(pager, Pager { skip: 5, redraw: false, max_len: 100 });
    }
}

#[test]
fn new_pager_starts_at_the_top_and_draws() {
    assert_eq!(Pager::new(40), Pager { skip: 0, redraw: true, max_len: 40 });
}

#[test]
fn scrolling_moves_and_marks_for_drawing() {
    let mut pager = Pager { skip: 10, redraw: false, max_len: 100 };
    assert!(!pager.handle(key(KeyCode::Down), 20));
    assert_eq!(pager, Pager { skip: 11, redraw: true, max_len: 100 });
    pager.redraw = false;
    assert!(!pager.handle(key(KeyCode::PageDown), 20));
    assert_eq!(pager, Pager { skip: 31, redraw: true, max_len: 100 });
    assert!(!pager.handle(key(KeyCode::PageUp), 20));
    assert_eq!(pager.skip, 11);
    assert!(!pager.handle(key(KeyCode::PageUp), 20));
    assert_eq!(pager.skip, 0);
    assert!(!pager.handle(Input::ScrollDown, 20));
    assert_eq!(pager.skip, 3);
    assert!(!pager.handle(key(KeyCode::Up), 20));
    assert_eq!(pager.skip, 2);
    assert!(!pager.handle(Input::ScrollUp, 20));
    assert_eq!(pager.skip, 0);
    assert!(!pager.handle(key(KeyCode::Char('G')), 20));
    assert_eq!(pager.skip, 100);
    assert!(!pager.handle(key(KeyCode::Char('g')), 20));
    assert_eq!(pager.skip, 0);
}

#[test]
fn scrolling_down_saturates() {
    let mut pager = Pager { skip: usize::MAX - 1, redraw: false, max_len: 100 };
    assert!(!pager.handle(Input::ScrollDown, 20));
    assert_eq!(pager.skip, usize::MAX);
    assert!(pager.redraw);
}

#[test]
fn quit_leaves_the_pager_alone() {
    let mut pager = Pager { skip: 10, redraw: false, max_len: 100 };
    assert!(pager.handle(key(KeyCode::Esc), 20));
    assert_eq!(pager, Pager { skip: 10, redraw: false, max_len: 100 });
    assert!(pager.handle(key(KeyCode::Char('q')), 20));
}

#[test]
fn resize_only_marks_for_drawing() {
    let mut pager = Pager { skip: 10, redraw: false, max_len: 100 };
    assert!(!pager.handle(Input::Resize, 20));
    assert_eq!(pager, Pager { skip: 10, redraw: true, max_len: 100 });
}

#[test]
fn drawing_brings_the_position_into_range() {
    let mut pager = Pager { skip: 95, redraw: true, max_len: 100 };
    assert!(pager.begin_draw(20));
    assert_eq!(pager, Pager { skip: 80, redraw: false, max_len: 100 });
    assert!(!pager.begin_draw(20));
    assert_eq!(pager.skip, 80);
    let mut pager = Pager { skip: 80, redraw: true, max_len: 100 };
    assert!(pager.begin_draw(20));
    assert_eq!(pager.skip, 80);
    let mut pager = Pager { skip: 7, redraw: true, max_len: 10 };
    assert!(pager.begin_draw(22));
    assert_eq!(pager.skip, 0);
    let mut pager = Pager { skip: 7, redraw: true, max_len: 10 };
    assert!(pager.begin_draw(0));
    assert_eq!(pager.skip, 7);
    let mut pager = Pager { skip: 500, redraw: false, max_len: 10 };
    assert!(!pager.begin_draw(5));
    assert_eq!(pager.skip, 500);
}
