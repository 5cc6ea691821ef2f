use smart_clock::inputs::joy_featherwing::{Button, ButtonSet};
use smart_clock::inputs::shared::SharedSensorState;
use smart_clock::state::State;
use smart_clock::states::catalog::RegionCatalog;
use smart_clock::states::region_select::{Level, Point, SelectionResult, ViewportState};
use smart_clock::states::time::{draw_time, place_time, time_state, TimeLine};
use smart_clock::states::zones::{zone_catalog, zone_names};
use smart_clock::states::{
    ClockStateMachine, FramePacer, Scene, BRIGHTNESS_UPDATE_INTERVAL, INPUT_POLL_INTERVAL,
};

fn clock(ids: &[&str]) -> ClockStateMachine {
    ClockStateMachine::new(RegionCatalog::new(&ids.iter().map(|s| s.to_string()).collect()))
        .unwrap()
}

fn holding(button: Button) -> SharedSensorState {
    let mut shared = SharedSensorState::new();
    shared.publish_buttons(ButtonSet {
        up: button == Button::Up,
        down: button == Button::Down,
        left: button == Button::Left,
        right: button == Button::Right,
        select: button == Button::Select,
    });
    shared
}

fn zone_of(name: &str) -> usize {
    chrono_tz::TZ_VARIANTS.iter().position(|tz| tz.name() == name).unwrap()
}

fn clock_line(text: &str) -> Option<TimeLine> {
    Some(TimeLine { text: text.to_string(), at: Point { x: 1, y: 15 } })
}

#[test]
fn pacer_fires_on_every_seventh_frame() {
    let mut pacer = FramePacer::new(7);
    let fired: Vec<usize> = (1..=30).filter(|_| pacer.tick()).collect();
    assert_eq!(fired, vec![7, 14, 21, 28]);
}

#[test]
fn pacer_of_one_or_zero_fires_on_every_frame() {
    for interval in [0, 1] {
        let mut pacer = FramePacer::new(interval);
        for _ in 0..5 {
            assert!(pacer.tick());
        }
    }
}

#[test]
fn pacer_of_two() {
    let mut pacer = FramePacer::new(2);
    let fired: Vec<bool> = (0..6).map(|_| pacer.tick()).collect();
    assert_eq!(fired, vec![false, true, false, true, false, true]);
}

#[test]
fn clock_needs_a_country() {
    assert!(ClockStateMachine::new(RegionCatalog::new(&Vec::new())).is_none());
}

#[test]
fn clock_looks_at_the_buttons_every_seventh_frame() {
    assert_eq!(INPUT_POLL_INTERVAL, 7);
    let mut clock = clock(&["a/1", "b/1", "c/1"]);
    let shared = holding(Button::Down);
    for frame in 1..=21usize {
        clock.step(&shared, 0);
        assert_eq!(clock.menu().viewport().country_index, (frame / 7).min(2), "frame {frame}");
        assert_eq!(clock.selection(), None);
    }
}

#[test]
fn clock_sets_the_brightness_every_tenth_frame() {
    assert_eq!(BRIGHTNESS_UPDATE_INTERVAL, 10);
    let mut clock = clock(&["a/1"]);
    let mut shared = SharedSensorState::new();
    for frame in 1..=30u8 {
        shared.publish_brightness(frame);
        let shown = clock.step(&shared, 0);
        if frame % 10 == 0 {
            assert_eq!(shown.brightness, Some(frame));
        } else {
            assert_eq!(shown.brightness, None);
        }
    }
}

#[test]
fn clock_shows_the_menu_while_a_region_is_selected() {
    let mut clock = clock(&["US/NewYork", "US/LosAngeles", "UK/London"]);
    let shown = clock.step(&SharedSensorState::new(), 0);
    match shown.scene {
        Scene::Menu(lines) => {
            let texts: Vec<&str> = lines.iter().map(|l| l.text.as_str()).collect();
            assert_eq!(texts, vec!["Region:", "UK", "US"]);
            assert_eq!(lines, clock.menu().menu());
        }
        other => panic!("{other:?}"),
    }
}

#[test]
fn clock_goes_from_region_select_to_time() {
    let ids = [chrono_tz::TZ_VARIANTS[0].name(), "UTC"];
    let mut clock = clock(&ids);
    let right = holding(Button::Right);
    for _ in 0..6 {
        clock.step(&right, 0);
    }
    assert_eq!(clock.menu().viewport().level, Level::Country);
    assert!(matches!(clock.step(&right, 0).scene, Scene::Menu(_)));
    assert_eq!(
        clock.menu().viewport(),
        ViewportState { level: Level::City, country_index: 0, city_index: 0 }
    );
    for _ in 0..6 {
        assert!(matches!(clock.step(&right, 0).scene, Scene::Menu(_)));
    }
    assert_eq!(clock.selection(), None);
    // The frame that completes the selection shows nothing.
    assert_eq!(clock.step(&right, 0).scene, Scene::Blank);
    let chosen =
        SelectionResult { country: "Africa".to_string(), city: "Abidjan".to_string(), zone: 0 };
    assert_eq!(clock.selection(), Some(&chosen));
    // From then on the time of the zone is shown, whatever is pressed.
    for button in [Button::Left, Button::Right, Button::Up, Button::Down, Button::Select] {
        for second in 0..8 {
            let shown = clock.step(&holding(button), 3600 + second);
            assert_eq!(shown.scene, Scene::Clock(clock_line(&format!("01:00:0{second}"))));
            assert_eq!(clock.selection(), Some(&chosen));
        }
    }
}

#[test]
fn zone_names_are_those_of_the_database() {
    let names = zone_names();
    assert_eq!(names.len(), chrono_tz::TZ_VARIANTS.len());
    assert!(names.len() > 400);
    for (name, tz) in names.iter().zip(chrono_tz::TZ_VARIANTS.iter()) {
        assert_eq!(name, tz.name());
    }
    assert_eq!(names[0], "Africa/Abidjan");
    assert!(names.contains(&"Europe/Berlin".to_string()));
    assert!(names.contains(&"UTC".to_string()));
}

#[test]
fn zone_catalog_resolves_to_database_zones() {
    let (names, catalog) = zone_catalog();
    assert_eq!(names, zone_names());
    let countries = catalog.countries();
    let mut sorted = countries.clone();
    sorted.sort();
    sorted.dedup();
    assert_eq!(countries, &sorted);
    let europe = countries.iter().position(|c| c == "Europe").unwrap();
    let cities = catalog.cities(europe).unwrap();
    let berlin = cities.iter().position(|c| c == "Berlin").unwrap();
    let zone = catalog.zone(europe, berlin).unwrap();
    assert_eq!(chrono_tz::TZ_VARIANTS[zone], chrono_tz::Tz::Europe__Berlin);
    let america = countries.iter().position(|c| c == "America").unwrap();
    let argentina = catalog.cities(america).unwrap().iter().position(|c| c == "Argentina").unwrap();
    let zone = catalog.zone(america, argentina).unwrap();
    assert_eq!(names[zone], "America/Argentina/Buenos_Aires");
    let utc = countries.iter().position(|c| c == "UTC").unwrap();
    assert_eq!(catalog.cities(utc), Some(&Vec::new()));
}

#[test]
fn draw_time_in_universal_time() {
    let utc = zone_of("UTC");
    assert_eq!(draw_time(utc, 0), clock_line("00:00:00"));
    assert_eq!(draw_time(utc, 86_399), clock_line("23:59:59"));
    assert_eq!(draw_time(utc, 1_700_000_000), clock_line("22:13:20"));
    assert_eq!(draw_time(utc, -1), clock_line("23:59:59"));
}

#[test]
fn draw_time_follows_the_zone() {
    assert_eq!(draw_time(zone_of("Europe/Berlin"), 0), clock_line("01:00:00"));
    assert_eq!(draw_time(zone_of("Asia/Tokyo"), 0), clock_line("09:00:00"));
    assert_eq!(draw_time(zone_of("America/New_York"), 1_700_000_000), clock_line("17:13:20"));
    // Summer time.
    assert_eq!(draw_time(zone_of("Europe/Berlin"), 1_688_212_800), clock_line("14:00:00"));
}

#[test]
fn draw_time_without_zone_or_moment_draws_nothing() {
    assert_eq!(draw_time(chrono_tz::TZ_VARIANTS.len(), 0), None);
    assert_eq!(draw_time(usize::MAX, 0), None);
    assert_eq!(draw_time(zone_of("UTC"), i64::MAX), None);
    assert_eq!(draw_time(zone_of("UTC"), i64::MIN), None);
}

#[test]
fn place_time_puts_the_reading_on_its_line() {
    assert_eq!(place_time(Some("12:34:56".to_string())), clock_line("12:34:56"));
    assert_eq!(place_time(Some(String::new())), clock_line(""));
    assert_eq!(place_time(None), None);
}

#[test]
fn time_state_stays_in_time() {
    let chosen = SelectionResult {
        country: "Asia".to_string(),
        city: "Tokyo".to_string(),
        zone: zone_of("Asia/Tokyo"),
    };
    let (next, line) = time_state(chosen.clone(), 60);
    assert_eq!(next, State::Time(chosen));
    assert_eq!(line, clock_line("09:01:00"));
}
