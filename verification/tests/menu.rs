use smart_clock::inputs::joy_featherwing::Button;
use smart_clock::state::State;
use smart_clock::states::catalog::RegionCatalog;
use smart_clock::states::region_select::{
    draw_menu_option, get_row_point, region_select_state, Level, MenuLine, MenuNavigator, Point,
    RowEntry, RowType, SelectionResult, ViewportState, LAST_ROW, VISIBLE_ROWS,
};

fn catalog(ids: &[&str]) -> RegionCatalog {
    RegionCatalog::new(&ids.iter().map(|s| s.to_string()).collect())
}

fn menu(ids: &[&str]) -> MenuNavigator {
    MenuNavigator::new(catalog(ids)).unwrap()
}

fn five() -> MenuNavigator {
    menu(&["a/1", "b/1", "c/1", "d/1", "e/1"])
}

fn at(level: Level, country_index: usize, city_index: usize) -> ViewportState {
    ViewportState { level, country_index, city_index }
}

fn regular(index: usize) -> Option<RowEntry> {
    Some(RowEntry { index, style: RowType::Regular })
}

fn selected(index: usize) -> Option<RowEntry> {
    Some(RowEntry { index, style: RowType::Selected })
}

fn line(text: &str, x: i32, y: i32, style: RowType) -> MenuLine {
    MenuLine { text: text.to_string(), at: Point { x, y }, style }
}

#[test]
fn menu_needs_a_country() {
    assert!(MenuNavigator::new(catalog(&[])).is_none());
    assert!(MenuNavigator::new(catalog(&["UTC"])).is_some());
}

#[test]
fn menu_starts_on_the_first_country() {
    let nav = menu(&["US/NewYork", "UK/London"]);
    assert_eq!(nav.viewport(), at(Level::Country, 0, 0));
    assert_eq!(nav.active_list(), &vec!["UK".to_string(), "US".to_string()]);
    assert_eq!(nav.catalog().countries().len(), 2);
}

#[test]
fn visible_rows_of_five_at_start_middle_end() {
    let mut nav = five();
    assert_eq!(VISIBLE_ROWS, 3);
    assert_eq!(nav.visible_rows(), [selected(0), regular(1), regular(2)]);
    nav.handle_button(Button::Down);
    nav.handle_button(Button::Down);
    assert_eq!(nav.viewport().country_index, 2);
    assert_eq!(nav.visible_rows(), [regular(1), selected(2), regular(3)]);
    nav.handle_button(Button::Down);
    nav.handle_button(Button::Down);
    assert_eq!(nav.viewport().country_index, 4);
    assert_eq!(nav.visible_rows(), [regular(2), regular(3), selected(4)]);
}

#[test]
fn visible_rows_of_five_at_second_and_fourth() {
    let mut nav = five();
    nav.handle_button(Button::Down);
    assert_eq!(nav.visible_rows(), [regular(0), selected(1), regular(2)]);
    nav.handle_button(Button::Down);
    nav.handle_button(Button::Down);
    assert_eq!(nav.visible_rows(), [regular(2), selected(3), regular(4)]);
}

#[test]
fn visible_rows_of_three() {
    let mut nav = menu(&["a/1", "b/1", "c/1"]);
    assert_eq!(nav.visible_rows(), [selected(0), regular(1), regular(2)]);
    nav.handle_button(Button::Down);
    assert_eq!(nav.visible_rows(), [regular(0), selected(1), regular(2)]);
    nav.handle_button(Button::Down);
    assert_eq!(nav.visible_rows(), [regular(0), regular(1), selected(2)]);
}

#[test]
fn visible_rows_of_short_lists() {
    let mut two = menu(&["a/1", "b/1"]);
    assert_eq!(two.visible_rows(), [selected(0), regular(1), None]);
    two.handle_button(Button::Down);
    assert_eq!(two.visible_rows(), [regular(0), selected(1), None]);
    let mut one = menu(&["a/1"]);
    assert_eq!(one.visible_rows(), [selected(0), None, None]);
    one.handle_button(Button::Down);
    assert_eq!(one.visible_rows(), [selected(0), None, None]);
    one.handle_button(Button::Right);
    assert_eq!(one.viewport().level, Level::City);
    assert_eq!(one.visible_rows(), [selected(0), None, None]);
}

#[test]
fn visible_rows_follow_the_city_list() {
    let mut nav = menu(&["a/1", "a/2", "a/3", "a/4", "b/1"]);
    nav.handle_button(Button::Right);
    nav.handle_button(Button::Down);
    nav.handle_button(Button::Down);
    nav.handle_button(Button::Down);
    assert_eq!(nav.viewport(), at(Level::City, 0, 3));
    assert_eq!(nav.visible_rows(), [regular(1), regular(2), selected(3)]);
}

#[test]
fn down_stops_at_the_last_index() {
    let mut nav = five();
    for press in 1..=20 {
        assert!(nav.handle_button(Button::Down).is_none());
        assert_eq!(nav.viewport().country_index, press.min(4));
        assert!(nav.viewport().country_index < 5);
    }
}

#[test]
fn up_stops_at_zero() {
    let mut nav = five();
    for _ in 0..10 {
        assert!(nav.handle_button(Button::Up).is_none());
        assert_eq!(nav.viewport(), at(Level::Country, 0, 0));
    }
    nav.handle_button(Button::Down);
    nav.handle_button(Button::Down);
    nav.handle_button(Button::Up);
    assert_eq!(nav.viewport().country_index, 1);
    nav.handle_button(Button::Up);
    nav.handle_button(Button::Up);
    assert_eq!(nav.viewport().country_index, 0);
}

#[test]
fn down_and_up_in_the_cities() {
    let mut nav = menu(&["a/1", "a/2", "a/3"]);
    nav.handle_button(Button::Right);
    for press in 1..=6 {
        nav.handle_button(Button::Down);
        assert_eq!(nav.viewport(), at(Level::City, 0, press.min(2)));
    }
    for press in 1..=6usize {
        nav.handle_button(Button::Up);
        assert_eq!(nav.viewport(), at(Level::City, 0, 2usize.saturating_sub(press)));
    }
}

#[test]
fn left_goes_back_and_keeps_the_city() {
    let mut nav = menu(&["a/1", "a/2", "a/3", "b/1"]);
    assert!(nav.handle_button(Button::Left).is_none());
    assert_eq!(nav.viewport(), at(Level::Country, 0, 0));
    nav.handle_button(Button::Right);
    nav.handle_button(Button::Down);
    nav.handle_button(Button::Down);
    assert!(nav.handle_button(Button::Left).is_none());
    assert_eq!(nav.viewport(), at(Level::Country, 0, 2));
    nav.handle_button(Button::Right);
    assert_eq!(nav.viewport(), at(Level::City, 0, 2));
}

#[test]
fn right_clamps_the_city_to_a_shorter_list() {
    let mut nav = menu(&["a/1", "a/2", "a/3", "b/1", "b/2"]);
    nav.handle_button(Button::Right);
    nav.handle_button(Button::Down);
    nav.handle_button(Button::Down);
    nav.handle_button(Button::Left);
    nav.handle_button(Button::Down);
    assert_eq!(nav.viewport(), at(Level::Country, 1, 2));
    assert!(nav.handle_button(Button::Right).is_none());
    assert_eq!(nav.viewport(), at(Level::City, 1, 1));
    assert_eq!(nav.active_list(), &vec!["1".to_string(), "2".to_string()]);
}

#[test]
fn right_does_not_enter_a_country_without_cities() {
    let mut nav = menu(&["UTC", "a/1"]);
    assert_eq!(nav.active_list()[0], "UTC");
    assert!(nav.handle_button(Button::Right).is_none());
    assert_eq!(nav.viewport(), at(Level::Country, 0, 0));
    nav.handle_button(Button::Down);
    nav.handle_button(Button::Right);
    assert_eq!(nav.viewport(), at(Level::City, 1, 0));
}

#[test]
fn select_and_neutral_do_nothing() {
    let mut nav = five();
    nav.handle_button(Button::Down);
    for button in [Button::Select, Button::Neutral] {
        assert!(nav.handle_button(button).is_none());
        assert_eq!(nav.viewport(), at(Level::Country, 1, 0));
    }
    nav.handle_button(Button::Right);
    for button in [Button::Select, Button::Neutral] {
        assert!(nav.handle_button(button).is_none());
        assert_eq!(nav.viewport(), at(Level::City, 1, 0));
    }
}

#[test]
fn right_then_right_selects_first_country_and_city() {
    let mut nav = menu(&["US/NewYork", "US/LosAngeles", "UK/London"]);
    assert_eq!(nav.viewport(), at(Level::Country, 0, 0));
    assert_eq!(nav.handle_button(Button::Right), None);
    assert_eq!(nav.viewport(), at(Level::City, 0, 0));
    assert_eq!(
        nav.handle_button(Button::Right),
        Some(SelectionResult { country: "UK".to_string(), city: "London".to_string(), zone: 2 })
    );
    assert_eq!(nav.viewport(), at(Level::City, 0, 0));
}

#[test]
fn selection_names_the_city_under_the_cursor() {
    let mut nav = menu(&["US/NewYork", "US/LosAngeles", "UK/London"]);
    for button in [Button::Down, Button::Right, Button::Down] {
        assert_eq!(nav.handle_button(button), None);
    }
    assert_eq!(
        nav.handle_button(Button::Right),
        Some(SelectionResult { country: "US".to_string(), city: "NewYork".to_string(), zone: 0 })
    );
}

#[test]
fn get_row_point_places_lines() {
    assert_eq!(get_row_point(0, RowType::Heading), Some(Point { x: 1, y: 5 }));
    assert_eq!(get_row_point(1, RowType::Selected), Some(Point { x: 3, y: 14 }));
    assert_eq!(get_row_point(2, RowType::Regular), Some(Point { x: 5, y: 21 }));
    assert_eq!(get_row_point(3, RowType::Regular), Some(Point { x: 5, y: 28 }));
    assert_eq!(get_row_point(0, RowType::Regular), Some(Point { x: 5, y: 5 }));
    assert_eq!(get_row_point(1, RowType::Heading), Some(Point { x: 1, y: 14 }));
}

#[test]
fn get_row_point_refuses_lines_off_the_canvas() {
    assert_eq!(get_row_point(-1, RowType::Regular), None);
    assert_eq!(get_row_point(i32::MIN, RowType::Heading), None);
    assert_eq!(LAST_ROW, 306_783_377);
    assert_eq!(get_row_point(LAST_ROW, RowType::Regular), Some(Point { x: 5, y: 2_147_483_646 }));
    assert_eq!(get_row_point(LAST_ROW + 1, RowType::Regular), None);
    assert_eq!(get_row_point(i32::MAX, RowType::Selected), None);
}

#[test]
fn draw_menu_option_makes_a_line() {
    assert_eq!(
        draw_menu_option(&"Europe".to_string(), 2, RowType::Selected),
        Some(line("Europe", 3, 21, RowType::Selected))
    );
    assert_eq!(
        draw_menu_option(&"Region:".to_string(), 0, RowType::Heading),
        Some(line("Region:", 1, 5, RowType::Heading))
    );
    assert_eq!(draw_menu_option(&"x".to_string(), LAST_ROW as usize + 1, RowType::Regular), None);
    assert_eq!(draw_menu_option(&"x".to_string(), usize::MAX, RowType::Regular), None);
}

#[test]
fn menu_lines_of_the_countries() {
    let mut nav = five();
    assert_eq!(
        nav.menu(),
        vec![
            line("Region:", 1, 5, RowType::Heading),
            line("a", 3, 14, RowType::Selected),
            line("b", 5, 21, RowType::Regular),
            line("c", 5, 28, RowType::Regular),
        ]
    );
    for _ in 0..4 {
        nav.handle_button(Button::Down);
    }
    assert_eq!(
        nav.menu(),
        vec![
            line("Region:", 1, 5, RowType::Heading),
            line("c", 5, 14, RowType::Regular),
            line("d", 5, 21, RowType::Regular),
            line("e", 3, 28, RowType::Selected),
        ]
    );
}

#[test]
fn menu_lines_of_a_short_city_list() {
    let mut nav = menu(&["US/NewYork", "US/LosAngeles", "UK/London"]);
    nav.handle_button(Button::Down);
    nav.handle_button(Button::Right);
    nav.handle_button(Button::Down);
    assert_eq!(
        nav.menu(),
        vec![
            line("Region:", 1, 5, RowType::Heading),
            line("LosAngeles", 5, 14, RowType::Regular),
            line("NewYork", 3, 21, RowType::Selected),
        ]
    );
}

#[test]
fn region_select_state_takes_buttons_in_order() {
    let mut nav = menu(&["US/NewYork", "US/LosAngeles", "UK/London"]);
    let next = region_select_state(&mut nav, &vec![Button::Down, Button::Right, Button::Down]);
    assert_eq!(next, State::RegionSelect);
    assert_eq!(nav.viewport(), at(Level::City, 1, 1));
    assert_eq!(region_select_state(&mut nav, &vec![]), State::RegionSelect);
    assert_eq!(nav.viewport(), at(Level::City, 1, 1));
}

#[test]
fn region_select_state_stops_at_the_selection() {
    let mut nav = menu(&["US/NewYork", "US/LosAngeles", "UK/London"]);
    let next = region_select_state(
        &mut nav,
        &vec![Button::Right, Button::Right, Button::Left, Button::Down],
    );
    assert_eq!(
        next,
        State::Time(SelectionResult {
            country: "UK".to_string(),
            city: "London".to_string(),
            zone: 2
        })
    );
    assert_eq!(nav.viewport(), at(Level::City, 0, 0));
}
