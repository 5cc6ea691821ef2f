use vstd::prelude::*;
use vstd::string::StringExecFns;

use crate::inputs::joy_featherwing::Button;
use crate::state::{State, StateView};
use crate::states::catalog::{CatalogView, RegionCatalog};
use crate::states::names::texts;

verus! {

/// Which of the two lists is being browsed.
#[derive(Clone, Copy, Debug, PartialEq, Eq, Structural)]
pub enum Level {
    Country,
    City,
}

/// Where the user stands in the menu.
///
/// `city_index` is kept while the countries are browsed, so that going
/// back into a country's cities finds the old place again.
#[derive(Clone, Copy, Debug, PartialEq, Eq, Structural)]
pub struct ViewportState {
    pub level: Level,
    pub country_index: usize,
    pub city_index: usize,
}

/// A country and one of its cities, with the place of their zone in the
/// list that the catalog was made from.
#[derive(Clone, Debug, PartialEq, Eq)]
pub struct SelectionResult {
    pub country: String,
    pub city: String,
    pub zone: usize,
}

/// A selection as a plain value.
pub struct SelectionView {
    pub country: Seq<char>,
    pub city: Seq<char>,
    pub zone: int,
}

impl View for SelectionResult {
    type V = SelectionView;

    open spec fn view(&self) -> SelectionView {
        SelectionView { country: self.country@, city: self.city@, zone: self.zone as int }
    }
}

/// `index` if it lies in a list of `len` items, else the last place of the
/// list.
pub open spec fn clamped(index: int, len: int) -> int {
    if index < len {
        index
    } else {
        len - 1
    }
}

impl ViewportState {
    /// The list that is being browsed.
    pub open spec fn active_list(self, catalog: CatalogView) -> Seq<Seq<char>> {
        match self.level {
            Level::Country => catalog.countries,
            Level::City => catalog.cities[self.country_index as int],
        }
    }

    /// The place in the list that is being browsed.
    pub open spec fn active_index(self) -> int {
        match self.level {
            Level::Country => self.country_index as int,
            Level::City => self.city_index as int,
        }
    }

    /// The place in the list that is being browsed lies in that list.
    pub open spec fn within(self, catalog: CatalogView) -> bool {
        &&& self.country_index < catalog.countries.len()
        &&& 0 <= self.active_index() < self.active_list(catalog).len()
    }

    /// Where the user stands after `button`.
    ///
    /// Down and Up move by one and stop at the ends of the list. Left goes
    /// back from the cities to the countries. Right goes from a country
    /// into its cities, to the place that was left last or, where the list
    /// is shorter than that, to its end; a country without cities cannot be
    /// entered. Right on a city, Select and Neutral move nothing.
    pub open spec fn after(self, catalog: CatalogView, button: Button) -> ViewportState {
        let cities = catalog.cities[self.country_index as int].len() as int;
        match (button, self.level) {
            (Button::Down, Level::Country) => ViewportState {
                country_index: clamped(self.country_index + 1, catalog.countries.len() as int) as usize,
                ..self
            },
            (Button::Down, Level::City) => ViewportState {
                city_index: clamped(self.city_index + 1, cities) as usize,
                ..self
            },
            (Button::Up, Level::Country) => ViewportState {
                country_index: if self.country_index > 0 {
                    (self.country_index - 1) as usize
                } else {
                    0
                },
                ..self
            },
            (Button::Up, Level::City) => ViewportState {
                city_index: if self.city_index > 0 {
                    (self.city_index - 1) as usize
                } else {
                    0
                },
                ..self
            },
            (Button::Left, _) => ViewportState { level: Level::Country, ..self },
            (Button::Right, Level::Country) => if cities > 0 {
                ViewportState {
                    level: Level::City,
                    city_index: clamped(self.city_index as int, cities) as usize,
                    ..self
                }
            } else {
                self
            },
            _ => self,
        }
    }

    /// The selection that `button` completes: Right on a city selects that
    /// city of the country; nothing else selects.
    pub open spec fn chosen(self, catalog: CatalogView, button: Button) -> Option<SelectionView> {
        if button == Button::Right && self.level == Level::City {
            Some(
                SelectionView {
                    country: catalog.countries[self.country_index as int],
                    city: catalog.cities[self.country_index as int][self.city_index as int],
                    zone: catalog.zones[self.country_index as int][self.city_index as int],
                },
            )
        } else {
            None
        }
    }
}

/// How a line of the menu is drawn.
#[derive(Clone, Copy, Debug, PartialEq, Eq, Structural)]
pub enum RowType {
    Regular,
    Heading,
    Selected,
}

/// One visible row of the list that is being browsed: the place of its
/// item in the list, and whether it is the item the user stands on.
#[derive(Clone, Copy, Debug, PartialEq, Eq, Structural)]
pub struct RowEntry {
    pub index: usize,
    pub style: RowType,
}

/// A place on the canvas, in pixels from its top left corner.
#[derive(Clone, Copy, Debug, PartialEq, Eq, Structural)]
pub struct Point {
    pub x: i32,
    pub y: i32,
}

/// A line of text to draw: the text, the place of its baseline's left end,
/// and its style.
#[derive(Clone, Debug, PartialEq, Eq)]
pub struct MenuLine {
    pub text: String,
    pub at: Point,
    pub style: RowType,
}

/// A line as a plain value.
pub struct MenuLineView {
    pub text: Seq<char>,
    pub at: Point,
    pub style: RowType,
}

impl View for MenuLine {
    type V = MenuLineView;

    open spec fn view(&self) -> MenuLineView {
        MenuLineView { text: self.text@, at: self.at, style: self.style }
    }
}

/// Number of rows of the list that the canvas shows at a time.
pub const VISIBLE_ROWS: usize = 3;

/// The place in a list of `len` items of the first visible row, when the
/// user stands on `active`.
///
/// The rows are the item before, the item itself and the item after; at
/// either end of the list they are its first or its last three. A list of
/// three items or fewer is shown from its start.
pub open spec fn window_start(len: int, active: int) -> int {
    if len <= 3 || active == 0 {
        0
    } else if active == len - 1 {
        len - 3
    } else {
        active - 1
    }
}

/// Visible row `k`, counted from 0 at the top, of a list of `len` items
/// when the user stands on `active`. The row of the item the user stands on
/// is the selected one. Where the list ends before row `k`, there is none.
pub open spec fn window_row(len: int, active: int, k: int) -> Option<RowEntry> {
    let index = window_start(len, active) + k;
    if index < len {
        Some(
            RowEntry {
                index: index as usize,
                style: if index == active {
                    RowType::Selected
                } else {
                    RowType::Regular
                },
            },
        )
    } else {
        None
    }
}

/// Distance in pixels of a line of the given style from the left edge.
pub open spec fn row_x(row_type: RowType) -> int {
    match row_type {
        RowType::Heading => 1,
        RowType::Regular => 5,
        RowType::Selected => 3,
    }
}

/// Distance in pixels of the baseline of line `row_num` from the top edge.
/// Lines are six pixels high with one pixel between them; below the
/// heading, which is line 0, two more pixels are left free.
pub open spec fn row_y(row_num: int) -> int {
    5 + 7 * row_num + (if row_num == 0 {
        0int
    } else {
        2int
    })
}

/// The last line whose place fits the canvas's coordinates.
pub const LAST_ROW: i32 = 306783377;

/// The place of line `row_num` when it is drawn in the given style, or
/// `None` where `row_num` is negative or beyond `LAST_ROW`.
pub fn get_row_point(row_num: i32, row_type: RowType) -> (point: Option<Point>)
    ensures
        point is Some <==> 0 <= row_num <= LAST_ROW,
        point matches Some(p) ==> p.x == row_x(row_type) && p.y == row_y(row_num as int),
{
    if row_num < 0 || row_num > LAST_ROW {
        return None;
    }
    let padding: i32 = 1;
    let font_height: i32 = 6;
    let x: i32 = match row_type {
        RowType::Heading => 1,
        RowType::Regular => 5,
        RowType::Selected => 3,
    };
    let gap: i32 = if row_num == 0 {
        0
    } else {
        2
    };
    let pitch: i32 = padding + font_height;
    assert(row_num * pitch == 7 * row_num) by (nonlinear_arith)
        requires
            pitch == 7,
    ;
    Some(Point { x, y: font_height - 1 + (row_num * pitch + gap) })
}

/// The line that shows `text` as line `row_num` of the menu in the given
/// style, or `None` where the canvas has no such line.
pub fn draw_menu_option(text: &String, row_num: usize, row_type: RowType) -> (line: Option<MenuLine>)
    ensures
        line is Some <==> row_num <= LAST_ROW,
        line matches Some(l) ==> l@ == (MenuLineView {
            text: text@,
            at: Point { x: row_x(row_type) as i32, y: row_y(row_num as int) as i32 },
            style: row_type,
        }),
{
    if row_num > LAST_ROW as usize {
        return None;
    }
    match get_row_point(row_num as i32, row_type) {
        Some(at) => Some(MenuLine { text: text.clone(), at, style: row_type }),
        None => None,
    }
}

/// The menu as a plain value.
pub struct NavigatorView {
    pub catalog: CatalogView,
    pub viewport: ViewportState,
}

/// The number of the first `rows` visible rows that a list of `len` items
/// fills.
pub open spec fn shown(len: int, rows: int) -> int {
    if len < rows {
        len
    } else {
        rows
    }
}

/// The heading of the menu.
pub open spec fn heading_line() -> MenuLineView {
    MenuLineView {
        text: "Region:"@,
        at: Point { x: row_x(RowType::Heading) as i32, y: row_y(0) as i32 },
        style: RowType::Heading,
    }
}

/// The line of visible row `k` of the menu: the name of the row's item, on
/// line `k + 1`, in the row's style.
pub open spec fn row_line(menu: NavigatorView, k: int) -> MenuLineView {
    let list = menu.viewport.active_list(menu.catalog);
    let entry = window_row(list.len() as int, menu.viewport.active_index(), k)->0;
    MenuLineView {
        text: list[entry.index as int],
        at: Point { x: row_x(entry.style) as i32, y: row_y(k + 1) as i32 },
        style: entry.style,
    }
}

/// `lines` is the menu drawn: the heading, then one line for each visible
/// row that the list fills.
pub open spec fn menu_lines(menu: NavigatorView, lines: Seq<MenuLine>) -> bool {
    let len = menu.viewport.active_list(menu.catalog).len() as int;
    &&& lines.len() == 1 + shown(len, 3)
    &&& lines[0]@ == heading_line()
    &&& forall|k: int| 0 <= k < shown(len, 3) ==> (#[trigger] lines[k + 1])@ == row_line(menu, k)
}

/// Visible row `k` of a list of `len` items whose first visible row is the
/// item at `start`.
fn visible_row(len: usize, active: usize, start: usize, k: usize) -> (row: Option<RowEntry>)
    requires
        active < len,
        start == window_start(len as int, active as int),
        k < 3,
    ensures
        row == window_row(len as int, active as int, k as int),
{
    let index = start + k;
    if index < len {
        Some(
            RowEntry {
                index,
                style: if index == active {
                    RowType::Selected
                } else {
                    RowType::Regular
                },
            },
        )
    } else {
        None
    }
}

/// Browses a catalog: keeps the place in its two lists and turns button
/// presses into moves and, in the end, a selection.
#[derive(Debug)]
pub struct MenuNavigator {
    catalog: RegionCatalog,
    viewport: ViewportState,
}

impl View for MenuNavigator {
    type V = NavigatorView;

    closed spec fn view(&self) -> NavigatorView {
        NavigatorView { catalog: self.catalog@, viewport: self.viewport }
    }
}

impl MenuNavigator {
    #[verifier::type_invariant]
    spec fn inv(self) -> bool {
        &&& self.catalog@.wf()
        &&& self.viewport.within(self.catalog@)
    }

    /// A menu over `catalog` that stands on its first country, or `None`
    /// where the catalog has no country.
    pub fn new(catalog: RegionCatalog) -> (menu: Option<MenuNavigator>)
        ensures
            menu is Some <==> catalog@.countries.len() > 0,
            menu matches Some(m) ==> m@ == (NavigatorView {
                catalog: catalog@,
                viewport: ViewportState { level: Level::Country, country_index: 0, city_index: 0 },
            }),
    {
        if catalog.countries().len() > 0 {
            let viewport = ViewportState { level: Level::Country, country_index: 0, city_index: 0 };
            Some(MenuNavigator { catalog, viewport })
        } else {
            None
        }
    }

    pub fn catalog(&self) -> (catalog: &RegionCatalog)
        ensures
            catalog@ == self@.catalog,
            catalog@.wf(),
    {
        proof {
            use_type_invariant(self);
        }
        &self.catalog
    }

    /// Where the user stands. The place always lies in the list that is
    /// being browsed.
    pub fn viewport(&self) -> (viewport: ViewportState)
        ensures
            viewport == self@.viewport,
            viewport.within(self@.catalog),
    {
        proof {
            use_type_invariant(self);
        }
        self.viewport
    }

    /// The list that is being browsed.
    pub fn active_list(&self) -> (list: &Vec<String>)
        ensures
            texts(list@) == self@.viewport.active_list(self@.catalog),
            self@.viewport.active_index() < list@.len(),
    {
        proof {
            use_type_invariant(self);
        }
        match self.viewport.level {
            Level::Country => self.catalog.countries(),
            Level::City => self.catalog.cities(self.viewport.country_index).unwrap(),
        }
    }

    /// The rows of the list that is being browsed that the canvas shows,
    /// from the top; `None` for a row below the end of a list of fewer than
    /// three items.
    pub fn visible_rows(&self) -> (rows: [Option<RowEntry>; 3])
        ensures
            forall|k: int|
                0 <= k < 3 ==> rows[k] == window_row(
                    self@.viewport.active_list(self@.catalog).len() as int,
                    self@.viewport.active_index(),
                    k,
                ),
    {
        proof {
            use_type_invariant(self);
        }
        let list = self.active_list();
        let len = list.len();
        assert(texts(list@).len() == len);
        let active = match self.viewport.level {
            Level::Country => self.viewport.country_index,
            Level::City => self.viewport.city_index,
        };
        let start = if len <= 3 || active == 0 {
            0
        } else if active == len - 1 {
            len - 3
        } else {
            active - 1
        };
        [
            visible_row(len, active, start, 0),
            visible_row(len, active, start, 1),
            visible_row(len, active, start, 2),
        ]
    }

    /// The menu as lines to draw: the heading, and below it the visible
    /// rows of the list that is being browsed, each with the name of its
    /// item.
    pub fn menu(&self) -> (lines: Vec<MenuLine>)
        ensures
            menu_lines(self@, lines@),
    {
        proof {
            use_type_invariant(self);
        }
        let list = self.active_list();
        let rows = self.visible_rows();
        let heading = String::from_str("Region:");
        let mut lines: Vec<MenuLine> = Vec::new();
        lines.push(draw_menu_option(&heading, 0, RowType::Heading).unwrap());
        let mut k: usize = 0;
        while k < 3
            invariant
                k <= 3,
                texts(list@) == self@.viewport.active_list(self@.catalog),
                0 <= self@.viewport.active_index() < list@.len(),
                forall|r: int|
                    0 <= r < 3 ==> rows[r] == window_row(
                        list@.len() as int,
                        self@.viewport.active_index(),
                        r,
                    ),
                lines@.len() >= 1,
                lines@[0]@ == heading_line(),
                lines@.len() == 1 + shown(list@.len() as int, k as int),
                forall|r: int|
                    0 <= r < shown(list@.len() as int, k as int) ==> (#[trigger] lines@[r + 1])@
                        == row_line(self@, r),
            decreases 3 - k,
        {
            assert(texts(list@).len() == list@.len());
            if let Some(entry) = rows[k] {
                let ghost before = lines@;
                let line = draw_menu_option(&list[entry.index], k + 1, entry.style).unwrap();
                assert(texts(list@)[entry.index as int] == list@[entry.index as int]@);
                lines.push(line);
                assert forall|r: int| 0 <= r < shown(list@.len() as int, k + 1) implies (
                #[trigger] lines@[r + 1])@ == row_line(self@, r) by {
                    if r < k {
                        assert(lines@[r + 1] == before[r + 1]);
                    }
                }
            }
            k += 1;
        }
        lines
    }

    /// Takes one button press.
    ///
    /// Returns the selection where the press completes one, and moves as
    /// `ViewportState::after` says.
    pub fn handle_button(&mut self, event: Button) -> (selection: Option<SelectionResult>)
        ensures
            final(self)@.catalog == old(self)@.catalog,
            final(self)@.viewport == old(self)@.viewport.after(old(self)@.catalog, event),
            final(self)@.viewport.within(final(self)@.catalog),
            selection is Some <==> old(self)@.viewport.chosen(old(self)@.catalog, event) is Some,
            selection matches Some(s) ==> Some(s@) == old(self)@.viewport.chosen(
                old(self)@.catalog,
                event,
            ),
    {
        proof {
            use_type_invariant(&*self);
        }
        let at = self.viewport;
        let countries = self.catalog.countries().len();
        let cities = self.catalog.cities(at.country_index).unwrap();
        let count = cities.len();
        assert(texts(cities@).len() == count);
        match event {
            Button::Down => {
                match at.level {
                    Level::Country => {
                        if at.country_index + 1 < countries {
                            self.viewport = ViewportState {
                                country_index: at.country_index + 1,
                                ..at
                            };
                        }
                    },
                    Level::City => {
                        if at.city_index + 1 < count {
                            self.viewport = ViewportState { city_index: at.city_index + 1, ..at };
                        }
                    },
                }
                None
            },
            Button::Up => {
                match at.level {
                    Level::Country => {
                        if at.country_index > 0 {
                            self.viewport = ViewportState {
                                country_index: at.country_index - 1,
                                ..at
                            };
                        }
                    },
                    Level::City => {
                        if at.city_index > 0 {
                            self.viewport = ViewportState { city_index: at.city_index - 1, ..at };
                        }
                    },
                }
                None
            },
            Button::Left => {
                self.viewport = ViewportState { level: Level::Country, ..at };
                None
            },
            Button::Right => {
                match at.level {
                    Level::Country => {
                        if count > 0 {
                            let city_index = if at.city_index < count {
                                at.city_index
                            } else {
                                count - 1
                            };
                            self.viewport = ViewportState { level: Level::City, city_index, ..at };
                        }
                        None
                    },
                    Level::City => {
                        let country = self.catalog.countries()[at.country_index].clone();
                        let city = cities[at.city_index].clone();
                        let zone = self.catalog.zone(at.country_index, at.city_index).unwrap();
                        Some(SelectionResult { country, city, zone })
                    },
                }
            },
            _ => None,
        }
    }
}

/// Where a run of button presses leaves the user, and the selection that
/// the run completes. The presses are taken in order; the first one that
/// completes a selection ends the run, later ones are dropped.
pub open spec fn pressed(viewport: ViewportState, catalog: CatalogView, buttons: Seq<Button>) -> (
    ViewportState,
    Option<SelectionView>,
)
    decreases buttons.len(),
{
    if buttons.len() == 0 {
        (viewport, None)
    } else if viewport.chosen(catalog, buttons[0]) is Some {
        (viewport, viewport.chosen(catalog, buttons[0]))
    } else {
        pressed(viewport.after(catalog, buttons[0]), catalog, buttons.drop_first())
    }
}

/// The state that follows region selection when a run of presses
/// completes `chosen`.
pub open spec fn state_after(chosen: Option<SelectionView>) -> StateView {
    match chosen {
        Some(selection) => StateView::Time(selection),
        None => StateView::RegionSelect,
    }
}

/// One frame of region selection: feeds the pressed buttons to the menu,
/// in order, and says which state comes next. Region selection lasts until
/// a press completes a selection; then the time is shown for it.
pub fn region_select_state(menu: &mut MenuNavigator, buttons: &Vec<Button>) -> (next: State)
    ensures
        final(menu)@.catalog == old(menu)@.catalog,
        final(menu)@.viewport == pressed(old(menu)@.viewport, old(menu)@.catalog, buttons@).0,
        next@ == state_after(pressed(old(menu)@.viewport, old(menu)@.catalog, buttons@).1),
{
    let ghost catalog = menu@.catalog;
    let ghost start = menu@.viewport;
    let mut i: usize = 0;
    assert(buttons@.skip(0) =~= buttons@);
    while i < buttons.len()
        invariant
            i <= buttons@.len(),
            catalog == old(menu)@.catalog,
            start == old(menu)@.viewport,
            menu@.catalog == catalog,
            pressed(start, catalog, buttons@) == pressed(menu@.viewport, catalog, buttons@.skip(i as int)),
        decreases buttons@.len() - i,
    {
        let ghost rest = buttons@.skip(i as int);
        assert(rest[0] == buttons@[i as int]);
        assert(rest.drop_first() =~= buttons@.skip(i + 1));
        if let Some(selection) = menu.handle_button(buttons[i]) {
            return State::Time(selection);
        }
        i += 1;
    }
    State::RegionSelect
}

/// However often Down is pressed, the place stays in the list; however
/// often Up is pressed, it does not fall below the first item. More
/// generally no run of presses takes the place out of the list that is
/// being browsed.
pub proof fn lemma_presses_stay_within(
    viewport: ViewportState,
    catalog: CatalogView,
    buttons: Seq<Button>,
)
    requires
        catalog.wf(),
        viewport.within(catalog),
    ensures
        pressed(viewport, catalog, buttons).0.within(catalog),
    decreases buttons.len(),
{
    if buttons.len() > 0 && viewport.chosen(catalog, buttons[0]) is None {
        lemma_press_stays_within(viewport, catalog, buttons[0]);
        lemma_presses_stay_within(viewport.after(catalog, buttons[0]), catalog, buttons.drop_first());
    }
}

/// No press takes the place out of the list that is being browsed.
pub proof fn lemma_press_stays_within(viewport: ViewportState, catalog: CatalogView, button: Button)
    requires
        catalog.wf(),
        viewport.within(catalog),
    ensures
        viewport.after(catalog, button).within(catalog),
{
}

/// `Down` pressed `times` times in a row.
pub open spec fn downs(times: nat) -> Seq<Button> {
    Seq::new(times, |i: int| Button::Down)
}

/// `Up` pressed `times` times in a row.
pub open spec fn ups(times: nat) -> Seq<Button> {
    Seq::new(times, |i: int| Button::Up)
}

/// Down, pressed any number of times, moves the place down by that number
/// of items, but not beyond the last one.
pub proof fn lemma_down_stops_at_end(viewport: ViewportState, catalog: CatalogView, times: nat)
    requires
        catalog.wf(),
        viewport.within(catalog),
    ensures
        pressed(viewport, catalog, downs(times)).1 is None,
        pressed(viewport, catalog, downs(times)).0.level == viewport.level,
        pressed(viewport, catalog, downs(times)).0.active_index() == clamped(
            viewport.active_index() + times,
            viewport.active_list(catalog).len() as int,
        ),
    decreases times,
{
    if times > 0 {
        let next = viewport.after(catalog, Button::Down);
        assert(downs(times)[0] == Button::Down);
        assert(downs(times).drop_first() =~= downs((times - 1) as nat));
        assert(next.active_list(catalog) == viewport.active_list(catalog));
        lemma_down_stops_at_end(next, catalog, (times - 1) as nat);
    }
}

/// Up, pressed any number of times, moves the place up by that number of
/// items, but not beyond the first one.
pub proof fn lemma_up_stops_at_start(viewport: ViewportState, catalog: CatalogView, times: nat)
    requires
        catalog.wf(),
        viewport.within(catalog),
    ensures
        pressed(viewport, catalog, ups(times)).1 is None,
        pressed(viewport, catalog, ups(times)).0.level == viewport.level,
        pressed(viewport, catalog, ups(times)).0.active_index() == (if viewport.active_index()
            >= times {
            viewport.active_index() - times
        } else {
            0
        }),
    decreases times,
{
    if times > 0 {
        let next = viewport.after(catalog, Button::Up);
        assert(ups(times)[0] == Button::Up);
        assert(ups(times).drop_first() =~= ups((times - 1) as nat));
        lemma_up_stops_at_start(next, catalog, (times - 1) as nat);
    }
}

/// The item the user stands on is always one of the visible rows, and it
/// is the only row that is marked as selected.
pub proof fn lemma_selected_row_is_visible(len: int, active: int)
    requires
        0 <= active < len,
        len <= usize::MAX,
    ensures
        exists|k: int|
            0 <= k < 3 && window_row(len, active, k) == Some(
                RowEntry { index: active as usize, style: RowType::Selected },
            ),
        forall|k: int|
            0 <= k < 3 ==> (#[trigger] window_row(len, active, k) matches Some(row) ==> (row.style
                == RowType::Selected <==> row.index == active)),
{
    let k = active - window_start(len, active);
    assert(window_row(len, active, k) == Some(
        RowEntry { index: active as usize, style: RowType::Selected },
    ));
}

} // verus!
