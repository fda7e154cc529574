//! The city window: the population, resources, mini-map, improvements, food,
//! units and production of one of the player's cities, laid out in panels
//! inside a bordered window.
use vstd::prelude::*;

use crate::geometry::{
    bordered, can_centre, centred, centred_rect, inner, inside_border, left_of, on_screen,
    sat_add, sat_sub, within, Rect,
};
use crate::model::{
    improvement_name, Location, target_cost, target_label, CityId, CityImprovement, ProductionTarget,
    SpecialResource,
};
use crate::text::{decimal, decimal_string, grouped, lemma_lex_le_total, lemma_lex_le_transitive, lex_le, str_le, with_commas};

verus! {

/// The window's ideal width before clamping to the screen.
pub const IDEAL_WIDTH: u16 = 64;

/// The window's ideal height before clamping to the screen.
pub const IDEAL_HEIGHT: u16 = 30;

/// The width of the close button, `✕ Close`.
pub const CLOSE_WIDTH: u16 = 7;

/// The bordered five-by-five mini-map: each world tile spans two cells.
pub const MINIMAP_WIDTH: u16 = 12;

/// The bordered five-by-five mini-map's height.
pub const MINIMAP_HEIGHT: u16 = 7;

/// The city window over `city_id`, with its improvements list scrolled by
/// `scroll` rows.
#[derive(Clone, Copy, Debug, PartialEq, Eq, Structural)]
pub struct CityWindow {
    pub city_id: CityId,
    pub scroll: usize,
}

impl CityWindow {
    /// The window over `city_id` with the improvements scrolled by `scroll`.
    pub fn new(city_id: CityId, scroll: usize) -> (window: CityWindow)
        ensures
            window == (CityWindow { city_id, scroll }),
    {
        CityWindow { city_id, scroll }
    }
}

/// The rectangle the city window occupies over `area`, centred across it.
pub fn window_rect(area: Rect) -> (window: Rect)
    requires
        can_centre(area, IDEAL_WIDTH as int, IDEAL_HEIGHT as int, 2),
    ensures
        window == centred(area, IDEAL_WIDTH as int, IDEAL_HEIGHT as int, 2),
{
    centred_rect(area, IDEAL_WIDTH, IDEAL_HEIGHT, 2)
}

/// The close button: right-aligned on the row just inside the top border.
pub open spec fn close_button_at(window: Rect) -> Rect {
    Rect {
        x: (window.x + window.width - 1 - CLOSE_WIDTH) as u16,
        y: (window.y + 1) as u16,
        width: CLOSE_WIDTH,
        height: 1,
    }
}

/// The close button: right-aligned on the row just inside the top border.
pub fn close_button_rect(window: Rect) -> (button: Rect)
    requires
        window.width >= CLOSE_WIDTH + 1,
        on_screen(window),
        window.y < u16::MAX,
    ensures
        button == close_button_at(window),
{
    Rect { x: window.x + window.width - 1 - CLOSE_WIDTH, y: window.y + 1, width: CLOSE_WIDTH, height: 1 }
}

/// The emoji that marks a special resource in the resources panel.
pub fn resource_icon(resource: SpecialResource) -> (icon: char)
    ensures
        icon == (match resource {
            SpecialResource::Coal => '🪨',
            SpecialResource::Fish => '🐟',
            SpecialResource::Game => '🦌',
            SpecialResource::Gems => '💎',
            SpecialResource::Gold => '🪙',
            SpecialResource::Horses => '🐎',
            SpecialResource::Oasis => '🌴',
            SpecialResource::Oil => '⛽',
        }),
{
    match resource {
        SpecialResource::Coal => '🪨',
        SpecialResource::Fish => '🐟',
        SpecialResource::Game => '🦌',
        SpecialResource::Gems => '💎',
        SpecialResource::Gold => '🪙',
        SpecialResource::Horses => '🐎',
        SpecialResource::Oasis => '🌴',
        SpecialResource::Oil => '⛽',
    }
}

/// The whole turns needed to gather `needed` more at `income` per turn:
/// none when nothing is needed, never when nothing comes in.
pub open spec fn turns_needed(needed: int, income: int) -> Option<int> {
    if needed == 0 {
        Some(0)
    } else if income == 0 {
        None
    } else {
        Some((needed + income - 1) / income)
    }
}

/// Turns needed to accumulate `needed` more of something at `income` per
/// turn, rounded up; `None` when it would never arrive.
pub fn turns_to(needed: u32, income: u32) -> (turns: Option<u32>)
    ensures
        turns matches Some(t) ==> turns_needed(needed as int, income as int) == Some(t as int),
        turns is None ==> turns_needed(needed as int, income as int) is None,
{
    if needed == 0 {
        Some(0)
    } else if income == 0 {
        None
    } else {
        let whole = needed / income;
        let rest = needed % income;
        proof {
            let n = needed as int;
            let m = income as int;
            assert(n == (n / m) * m + n % m && 0 <= n % m < m) by (nonlinear_arith)
                requires
                    m > 0,
            ;
            if rest == 0 {
                assert((n + m - 1) / m == n / m) by (nonlinear_arith)
                    requires
                        m > 0,
                        n % m == 0,
                        n == (n / m) * m,
                ;
            } else {
                assert((n + m - 1) / m == n / m + 1) by (nonlinear_arith)
                    requires
                        m > 0,
                        0 < n % m < m,
                        n == (n / m) * m + n % m,
                ;
                assert(n / m < n) by (nonlinear_arith)
                    requires
                        m > 1,
                        n > 0,
                ;
            }
        }
        if rest == 0 {
            Some(whole)
        } else {
            Some(whole + 1)
        }
    }
}

/// With a positive income the turns needed are just enough: that many turns
/// gather at least what is needed, one fewer would not.
pub proof fn lemma_turns_are_just_enough(needed: int, income: int)
    requires
        needed > 0,
        income > 0,
    ensures
        turns_needed(needed, income) matches Some(t) && t * income >= needed && (t - 1)
            * income < needed,
{
    let t = (needed + income - 1) / income;
    assert(t * income >= needed && (t - 1) * income < needed) by (nonlinear_arith)
        requires
            needed > 0,
            income > 0,
            t == (needed + income - 1) / income,
    ;
}

/// The panels of a city window, inside its border: the population panel on
/// top, a middle band of resources, mini-map and improvements, and a bottom
/// band of food, units and production, separated by one-cell rules.
#[derive(Clone, Copy, Debug, PartialEq, Eq, Structural)]
pub struct CityLayout {
    pub population: Rect,
    pub middle: Rect,
    pub bottom: Rect,
    pub grouped: Rect,
    pub improvements: Rect,
    pub minimap: Rect,
    pub resources: Rect,
    pub food: Rect,
    pub units: Rect,
    pub production: Rect,
}

/// The panels of a city window whose interior is `inner`.
pub open spec fn layout_of(interior: Rect) -> CityLayout {
    let iw = interior.width as int;
    let ih = interior.height as int;
    let mid_h = (ih - 4) / 2;
    let middle = Rect { x: interior.x, y: (interior.y + 3) as u16, width: interior.width, height: mid_h as u16 };
    let bottom_top = interior.y + 3 + mid_h + 1;
    let bottom = Rect {
        x: interior.x,
        y: bottom_top as u16,
        width: interior.width,
        height: (ih - (bottom_top - interior.y)) as u16,
    };
    let grouped_w = iw * 2 / 3;
    let grouped = Rect { x: interior.x, y: middle.y, width: grouped_w as u16, height: middle.height };
    let panel_w = (iw - 2) / 3;
    let units_x = interior.x + panel_w + 1;
    let production_x = units_x + panel_w + 1;
    CityLayout {
        population: Rect { x: interior.x, y: interior.y, width: interior.width, height: 2 },
        middle,
        bottom,
        grouped,
        improvements: Rect {
            x: (interior.x + grouped_w) as u16,
            y: middle.y,
            width: (iw - grouped_w) as u16,
            height: middle.height,
        },
        minimap: Rect {
            x: (interior.x + grouped_w - MINIMAP_WIDTH) as u16,
            y: (middle.y + (mid_h - MINIMAP_HEIGHT) / 2) as u16,
            width: MINIMAP_WIDTH,
            height: MINIMAP_HEIGHT,
        },
        resources: Rect {
            x: interior.x,
            y: middle.y,
            width: (grouped_w - MINIMAP_WIDTH - 1) as u16,
            height: middle.height,
        },
        food: Rect { x: interior.x, y: bottom.y, width: panel_w as u16, height: bottom.height },
        units: Rect { x: units_x as u16, y: bottom.y, width: panel_w as u16, height: bottom.height },
        production: Rect {
            x: production_x as u16,
            y: bottom.y,
            width: (interior.x + iw - production_x) as u16,
            height: bottom.height,
        },
    }
}

/// Whether the window's interior has room for the panels: narrower than
/// twenty cells or shorter than twelve, only the frame is drawn.
pub open spec fn has_panels(interior: Rect) -> bool {
    interior.width >= 20 && interior.height >= 12
}

/// Whether the middle band has room for the mini-map, which needs an
/// interior at least eighteen rows tall.
pub open spec fn minimap_fits(interior: Rect) -> bool {
    interior.height >= 18
}

/// The panels of a city window whose frame is `window`, or `None` when the
/// interior is too small for them and only the frame is drawn.
pub fn city_layout(window: Rect) -> (layout: Option<CityLayout>)
    requires
        bordered(window),
        on_screen(window),
        has_panels(inside_border(window)) ==> minimap_fits(inside_border(window)),
    ensures
        layout == (if has_panels(inside_border(window)) {
            Some(layout_of(inside_border(window)))
        } else {
            None
        }),
{
    let interior = inner(window);
    let iw = interior.width;
    let ih = interior.height;
    if iw < 20 || ih < 12 {
        return None;
    }
    let mid_h = (ih - 4) / 2;
    let middle = Rect { x: interior.x, y: interior.y + 3, width: iw, height: mid_h };
    let bottom_top = interior.y + 3 + mid_h + 1;
    let bottom = Rect { x: interior.x, y: bottom_top, width: iw, height: ih - (bottom_top - interior.y) };
    let grouped_w = ((iw as u32) * 2 / 3) as u16;
    let grouped = Rect { x: interior.x, y: middle.y, width: grouped_w, height: mid_h };
    let panel_w = (iw - 2) / 3;
    let units_x = interior.x + panel_w + 1;
    let production_x = units_x + panel_w + 1;
    Some(
        CityLayout {
            population: Rect { x: interior.x, y: interior.y, width: iw, height: 2 },
            middle,
            bottom,
            grouped,
            improvements: Rect { x: interior.x + grouped_w, y: middle.y, width: iw - grouped_w, height: mid_h },
            minimap: Rect {
                x: interior.x + grouped_w - MINIMAP_WIDTH,
                y: middle.y + (mid_h - MINIMAP_HEIGHT) / 2,
                width: MINIMAP_WIDTH,
                height: MINIMAP_HEIGHT,
            },
            resources: Rect { x: interior.x, y: middle.y, width: grouped_w - MINIMAP_WIDTH - 1, height: mid_h },
            food: Rect { x: interior.x, y: bottom_top, width: panel_w, height: bottom.height },
            units: Rect { x: units_x, y: bottom_top, width: panel_w, height: bottom.height },
            production: Rect {
                x: production_x,
                y: bottom_top,
                width: interior.x + iw - production_x,
                height: bottom.height,
            },
        },
    )
}

/// What the city window draws: nothing over a city the player does not own
/// or in a window smaller than four cells either way; otherwise the
/// bordered window, with its panels when the interior has room for them.
#[derive(Clone, Copy, Debug, PartialEq, Eq, Structural)]
pub enum CityWindowPlan {
    Hidden,
    Shown { window: Rect, panels: Option<CityLayout> },
}

/// What the city window draws over `area` for a city the player owns or
/// not.
pub open spec fn city_window_plan_of(owned: bool, area: Rect) -> CityWindowPlan {
    let window = centred(area, IDEAL_WIDTH as int, IDEAL_HEIGHT as int, 2);
    if !owned || window.width < 4 || window.height < 4 {
        CityWindowPlan::Hidden
    } else {
        CityWindowPlan::Shown {
            window,
            panels: if has_panels(inside_border(window)) {
                Some(layout_of(inside_border(window)))
            } else {
                None
            },
        }
    }
}

/// What the city window draws over `area`: see `city_window_plan_of`.
/// `owned` says whether the city belongs to the player.
pub fn city_window_plan(owned: bool, area: Rect) -> (plan: CityWindowPlan)
    requires
        can_centre(area, IDEAL_WIDTH as int, IDEAL_HEIGHT as int, 2),
        on_screen(area),
        has_panels(inside_border(centred(area, IDEAL_WIDTH as int, IDEAL_HEIGHT as int, 2))) ==> minimap_fits(
            inside_border(centred(area, IDEAL_WIDTH as int, IDEAL_HEIGHT as int, 2)),
        ),
    ensures
        plan == city_window_plan_of(owned, area),
{
    if !owned {
        return CityWindowPlan::Hidden;
    }
    let window = window_rect(area);
    if window.width < 4 || window.height < 4 {
        return CityWindowPlan::Hidden;
    }
    CityWindowPlan::Shown { window, panels: city_layout(window) }
}

/// `a` ends on a row above the one where `b` begins.
pub open spec fn above(a: Rect, b: Rect) -> bool {
    a.y + a.height < b.y
}

/// The city window's panels fit together: each lies inside the interior,
/// the three bands are stacked with a rule row between each, the middle band
/// holds the resources, the mini-map and the improvements side by side, and
/// the bottom band holds food, units and production side by side with a
/// rule column between each.
pub proof fn lemma_city_panels_tile_the_window(interior: Rect)
    requires
        has_panels(interior),
        minimap_fits(interior),
        on_screen(interior),
    ensures
        ({
            let l = layout_of(interior);
            &&& within(l.population, interior)
            &&& within(l.middle, interior)
            &&& within(l.bottom, interior)
            &&& above(l.population, l.middle)
            &&& above(l.middle, l.bottom)
            &&& within(l.grouped, l.middle)
            &&& within(l.improvements, l.middle)
            &&& l.grouped.x + l.grouped.width == l.improvements.x
            &&& within(l.resources, l.grouped)
            &&& within(l.minimap, l.grouped)
            &&& l.resources.x + l.resources.width < l.minimap.x
            &&& within(l.food, l.bottom)
            &&& within(l.units, l.bottom)
            &&& within(l.production, l.bottom)
            &&& l.food.x + l.food.width < l.units.x
            &&& l.units.x + l.units.width < l.production.x
        }),
{
}

/// The texts of a list of strings.
pub open spec fn texts(lines: Seq<String>) -> Seq<Seq<char>> {
    lines.map_values(|line: String| line@)
}

/// The population panel's header: the city's name and its population in
/// ten-thousands, as in `London (Pop: 30,000)`.
pub open spec fn population_header_of(name: Seq<char>, population: nat) -> Seq<char> {
    name + " (Pop: "@ + grouped(population * 10000) + ")"@
}

/// The population panel's header: the city's name and its population in
/// ten-thousands, as in `London (Pop: 30,000)`.
pub fn population_header(name: &str, population: u32) -> (header: String)
    requires
        population * 10000 <= u32::MAX,
    ensures
        header@ == population_header_of(name@, population as nat),
{
    let mut header = String::from_str(name);
    header.append(" (Pop: ");
    let people = with_commas(population * 10000);
    header.append(people.as_str());
    header.append(")");
    header
}

/// How many citizen figures the population panel draws: one per citizen
/// (counted in sixteen bits), no more than fit in `width` cells at two cells
/// a figure.
pub fn citizen_icons(population: u32, width: u16) -> (count: u16)
    ensures
        count == (if (population as u16) < width / 2 {
            population as u16
        } else {
            width / 2
        }),
{
    let count = population as u16;
    if count < width / 2 {
        count
    } else {
        width / 2
    }
}

/// What a city earns each turn, as the resources panel shows it.
#[derive(Clone, Debug)]
pub struct CityIncome {
    pub food: u32,
    pub resources: u32,
    pub trade: u32,
    pub gold: u32,
    pub research: u32,
    pub special_resources: Vec<SpecialResource>,
}

/// `count` spaces.
pub open spec fn spaces(count: nat) -> Seq<char> {
    Seq::new(count, |i: int| ' ')
}

/// `label` padded with spaces on the right to at least `width` characters.
pub open spec fn padded(label: Seq<char>, width: nat) -> Seq<char> {
    if label.len() >= width {
        label
    } else {
        label + spaces((width - label.len()) as nat)
    }
}

/// `label` padded with spaces on the right to at least `width` characters.
pub fn pad_right(label: &str, width: usize) -> (text: String)
    ensures
        text@ == padded(label@, width as nat),
{
    let mut text = String::from_str(label);
    let mut len = label.unicode_len();
    proof {
        assert(text@ =~= label@ + spaces(0));
    }
    while len < width
        invariant
            label@.len() <= len <= width || (len == label@.len() && len >= width),
            text@ == label@ + spaces((len - label@.len()) as nat),
        decreases width - len,
    {
        proof {
            reveal_strlit(" ");
        }
        text.append(" ");
        len = len + 1;
        proof {
            assert(text@ =~= label@ + spaces((len - label@.len()) as nat));
        }
    }
    proof {
        if label@.len() >= width {
            assert(text@ =~= label@);
        }
    }
    text
}

/// A line of the resources panel after its icon: a space, the label padded
/// to ten characters, and the amount.
pub open spec fn resource_line_of(label: Seq<char>, amount: nat) -> Seq<char> {
    " "@ + padded(label, 10) + decimal(amount)
}

/// A line of the resources panel after its icon: a space, the label padded
/// to ten characters, and the amount, as in ` Food      7`.
pub fn resource_line(label: &str, amount: u32) -> (line: String)
    ensures
        line@ == resource_line_of(label@, amount as nat),
{
    let mut line = String::from_str(" ");
    let label_text = pad_right(label, 10);
    line.append(label_text.as_str());
    let number = decimal_string(amount as u64);
    line.append(number.as_str());
    line
}

/// The name of a special resource.
pub open spec fn resource_name(resource: SpecialResource) -> Seq<char> {
    match resource {
        SpecialResource::Coal => "Coal"@,
        SpecialResource::Fish => "Fish"@,
        SpecialResource::Game => "Game"@,
        SpecialResource::Gems => "Gems"@,
        SpecialResource::Gold => "Gold"@,
        SpecialResource::Horses => "Horses"@,
        SpecialResource::Oasis => "Oasis"@,
        SpecialResource::Oil => "Oil"@,
    }
}

/// The name of a special resource.
pub fn resource_label(resource: SpecialResource) -> (name: &'static str)
    ensures
        name@ == resource_name(resource),
{
    match resource {
        SpecialResource::Coal => "Coal",
        SpecialResource::Fish => "Fish",
        SpecialResource::Game => "Game",
        SpecialResource::Gems => "Gems",
        SpecialResource::Gold => "Gold",
        SpecialResource::Horses => "Horses",
        SpecialResource::Oasis => "Oasis",
        SpecialResource::Oil => "Oil",
    }
}

/// The resources panel, top to bottom: food, shields, trade, research and
/// gold with their icons, then each special resource the city works.
pub open spec fn resource_lines_of(income: CityIncome) -> Seq<(char, Seq<char>)> {
    seq![
        ('🌾', resource_line_of("Food"@, income.food as nat)),
        ('🪖', resource_line_of("Shields"@, income.resources as nat)),
        ('🛒', resource_line_of("Trade"@, income.trade as nat)),
        ('💡', resource_line_of("Research"@, income.research as nat)),
        ('🪎', resource_line_of("Gold"@, income.gold as nat)),
    ] + income.special_resources@.map_values(
        |resource: SpecialResource| (resource_icon_of(resource), " "@ + resource_name(resource)),
    )
}

/// The emoji that marks a special resource.
pub open spec fn resource_icon_of(resource: SpecialResource) -> char {
    match resource {
        SpecialResource::Coal => '🪨',
        SpecialResource::Fish => '🐟',
        SpecialResource::Game => '🦌',
        SpecialResource::Gems => '💎',
        SpecialResource::Gold => '🪙',
        SpecialResource::Horses => '🐎',
        SpecialResource::Oasis => '🌴',
        SpecialResource::Oil => '⛽',
    }
}

/// The texts of icon-and-text lines.
pub open spec fn icon_texts(lines: Seq<(char, String)>) -> Seq<(char, Seq<char>)> {
    lines.map_values(|line: (char, String)| (line.0, line.1@))
}

/// The resources panel, top to bottom: food, shields, trade, research and
/// gold with their icons, then each special resource the city works. The
/// panel draws as many as fit.
pub fn resource_lines(income: &CityIncome) -> (lines: Vec<(char, String)>)
    ensures
        icon_texts(lines@) == resource_lines_of(*income),
{
    let mut lines: Vec<(char, String)> = Vec::new();
    lines.push(('🌾', resource_line("Food", income.food)));
    lines.push(('🪖', resource_line("Shields", income.resources)));
    lines.push(('🛒', resource_line("Trade", income.trade)));
    lines.push(('💡', resource_line("Research", income.research)));
    lines.push(('🪎', resource_line("Gold", income.gold)));
    let ghost first = lines@;
    let ghost fixed = icon_texts(lines@);
    let mut i: usize = 0;
    while i < income.special_resources.len()
        invariant
            i <= income.special_resources.len(),
            lines@.len() == 5 + i,
            first.len() == 5,
            forall|k: int| 0 <= k < 5 ==> (#[trigger] lines@[k]) == first[k],
            forall|k: int|
                0 <= k < i ==> (#[trigger] lines@[5 + k]).0 == resource_icon_of(income.special_resources@[k])
                    && lines@[5 + k].1@ == " "@ + resource_name(income.special_resources@[k]),
        decreases income.special_resources.len() - i,
    {
        let resource = income.special_resources[i];
        let mut text = String::from_str(" ");
        text.append(resource_label(resource));
        lines.push((resource_icon(resource), text));
        i = i + 1;
    }
    proof {
        assert(fixed =~= seq![
            ('🌾', resource_line_of("Food"@, income.food as nat)),
            ('🪖', resource_line_of("Shields"@, income.resources as nat)),
            ('🛒', resource_line_of("Trade"@, income.trade as nat)),
            ('💡', resource_line_of("Research"@, income.research as nat)),
            ('🪎', resource_line_of("Gold"@, income.gold as nat)),
        ]);
        let expect = resource_lines_of(*income);
        assert forall|k: int| 0 <= k < expect.len() implies icon_texts(lines@)[k] == expect[k] by {
            if k >= 5 {
                assert(lines@[5 + (k - 5)].0 == resource_icon_of(income.special_resources@[k - 5]));
            } else {
                assert(lines@[k] == first[k]);
                assert(fixed[k] == (first[k].0, first[k].1@));
            }
        }
        assert(icon_texts(lines@) =~= expect);
    }
    lines
}

/// `n` with its sign always written: `+3`, `-2`, `+0`.
pub open spec fn signed(n: int) -> Seq<char> {
    if n >= 0 {
        "+"@ + decimal(n as nat)
    } else {
        "-"@ + decimal((-n) as nat)
    }
}

/// `n` with its sign always written: `+3`, `-2`, `+0`.
pub fn signed_text(n: i64) -> (text: String)
    requires
        n > i64::MIN,
    ensures
        text@ == signed(n as int),
{
    if n >= 0 {
        let mut text = String::from_str("+");
        let digits = decimal_string(n as u64);
        text.append(digits.as_str());
        text
    } else {
        let mut text = String::from_str("-");
        let digits = decimal_string((-n) as u64);
        text.append(digits.as_str());
        text
    }
}

/// `label` followed by `amount` in decimal.
pub open spec fn labelled(label: Seq<char>, amount: nat) -> Seq<char> {
    label + decimal(amount)
}

/// `label` followed by `amount` in decimal.
fn labelled_text(label: &str, amount: u64) -> (text: String)
    ensures
        text@ == labelled(label@, amount as nat),
{
    let mut text = String::from_str(label);
    let digits = decimal_string(amount);
    text.append(digits.as_str());
    text
}

/// The food panel's lines: food stored, eaten each turn, the surplus with
/// its sign, and, when the surplus fills the granary at all, the turns until
/// the city grows.
pub open spec fn food_lines_of(stored: nat, consumed: nat, income: nat, growth_target: nat) -> Seq<Seq<char>> {
    let surplus = income - consumed;
    let remaining = sat_sub(growth_target as int, stored as int);
    let feed = if surplus > 0 {
        surplus
    } else {
        0
    };
    let shown = seq![
        labelled("🌾 Stored   "@, stored),
        labelled("🌾 Eaten    "@, consumed),
        "🌾 Surplus  "@ + signed(surplus),
    ];
    match turns_needed(remaining, feed) {
        Some(t) => shown.push(labelled("🌾 Turns    "@, t as nat)),
        None => shown,
    }
}

/// The food panel's lines: food stored, eaten each turn, the surplus with
/// its sign, and, when the surplus fills the granary at all, the turns until
/// the city grows.
pub fn food_lines(stored: u32, consumed: u32, income: u32, growth_target: u32) -> (lines: Vec<String>)
    requires
        consumed <= i32::MAX,
        income <= i32::MAX,
    ensures
        texts(lines@) == food_lines_of(stored as nat, consumed as nat, income as nat, growth_target as nat),
{
    let surplus = income as i64 - consumed as i64;
    let remaining = growth_target.saturating_sub(stored);
    let feed: u32 = if surplus > 0 {
        surplus as u32
    } else {
        0
    };
    let mut lines: Vec<String> = Vec::new();
    lines.push(labelled_text("🌾 Stored   ", stored as u64));
    lines.push(labelled_text("🌾 Eaten    ", consumed as u64));
    let mut surplus_line = String::from_str("🌾 Surplus  ");
    let sign = signed_text(surplus);
    surplus_line.append(sign.as_str());
    lines.push(surplus_line);
    let turns = turns_to(remaining, feed);
    match turns {
        Some(t) => lines.push(labelled_text("🌾 Turns    ", t as u64)),
        None => {},
    }
    proof {
        assert(texts(lines@) =~= food_lines_of(
            stored as nat,
            consumed as nat,
            income as nat,
            growth_target as nat,
        ));
    }
    lines
}

/// The production panel's title: what the city builds, or `Idle`.
pub open spec fn production_title_of(target: Option<ProductionTarget>) -> Seq<char> {
    match target {
        Some(t) => target_label(t),
        None => "Idle"@,
    }
}

/// The production panel's title: what the city builds, or `Idle`.
pub fn production_title(target: Option<ProductionTarget>) -> (title: String)
    ensures
        title@ == production_title_of(target),
{
    match target {
        Some(t) => String::from_str(t.label()),
        None => String::from_str("Idle"),
    }
}

/// The production panel's lines for a city building `target`: shields
/// stored, the target's cost, the income per turn, and, when the income
/// ever completes it, the turns left.
pub open spec fn production_lines_of(target: ProductionTarget, stored: nat, income: nat) -> Seq<Seq<char>> {
    let cost = target_cost(target) as nat;
    let shown = seq![
        labelled("🪖 Stored   "@, stored),
        labelled("🪖 Cost     "@, cost),
        labelled("🪖 Income   "@, income),
    ];
    match turns_needed(sat_sub(cost as int, stored as int), income as int) {
        Some(t) => shown.push(labelled("🪖 Turns    "@, t as nat)),
        None => shown,
    }
}

/// The production panel's lines for a city building `target`: shields
/// stored, the target's cost, the income per turn, and, when the income
/// ever completes it, the turns left.
pub fn production_lines(target: ProductionTarget, stored: u32, income: u32) -> (lines: Vec<String>)
    ensures
        texts(lines@) == production_lines_of(target, stored as nat, income as nat),
{
    let cost = target.resource_cost();
    let mut lines: Vec<String> = Vec::new();
    lines.push(labelled_text("🪖 Stored   ", stored as u64));
    lines.push(labelled_text("🪖 Cost     ", cost as u64));
    lines.push(labelled_text("🪖 Income   ", income as u64));
    match turns_to(cost.saturating_sub(stored), income) {
        Some(t) => lines.push(labelled_text("🪖 Turns    ", t as u64)),
        None => {},
    }
    proof {
        assert(texts(lines@) =~= production_lines_of(target, stored as nat, income as nat));
    }
    lines
}

/// The views of a list of names.
pub open spec fn name_views(names: Seq<&'static str>) -> Seq<Seq<char>> {
    names.map_values(|name: &'static str| name@)
}

/// Names in alphabetical order.
pub open spec fn alphabetical(names: Seq<Seq<char>>) -> bool {
    forall|i: int, j: int| 0 <= i < j < names.len() ==> lex_le(#[trigger] names[i], #[trigger] names[j])
}

/// Insert `name` into an alphabetical list, after any equal name.
fn insert_name(names: &mut Vec<&'static str>, name: &'static str)
    requires
        alphabetical(name_views(old(names)@)),
    ensures
        alphabetical(name_views(final(names)@)),
        name_views(final(names)@).to_multiset() == name_views(old(names)@).to_multiset().insert(name@),
{
    let mut pos = names.len();
    while pos > 0 && !str_le(names[pos - 1], name)
        invariant
            pos <= names.len(),
            forall|k: int| pos <= k < names.len() ==> !lex_le(#[trigger] names@[k]@, name@),
        decreases pos,
    {
        pos = pos - 1;
    }
    proof {
        let old_views = name_views(names@);
        assert forall|k: int| pos <= k < names@.len() implies lex_le(name@, #[trigger] old_views[k]) by {
            lemma_lex_le_total(name@, old_views[k]);
        }
        if pos > 0 {
            assert forall|k: int| 0 <= k < pos implies lex_le(#[trigger] old_views[k], name@) by {
                if k < pos - 1 {
                    lemma_lex_le_transitive(old_views[k], old_views[pos - 1], name@);
                }
            }
        }
    }
    let ghost before = names@;
    names.insert(pos, name);
    proof {
        assert(name_views(names@) =~= name_views(before).insert(pos as int, name@));
        vstd::seq_lib::to_multiset_insert(name_views(before), pos as int, name@);
        let new_views = name_views(names@);
        let old_views = name_views(before);
        assert forall|i: int, j: int| 0 <= i < j < new_views.len() implies lex_le(
            #[trigger] new_views[i],
            #[trigger] new_views[j],
        ) by {
            if i < pos && j > pos {
                lemma_lex_le_transitive(old_views[i], name@, old_views[j - 1]);
            }
        }
    }
}

/// The names of a city's improvements in alphabetical order, as the
/// improvements panel lists them.
pub fn improvement_names(improvements: &Vec<CityImprovement>) -> (names: Vec<&'static str>)
    ensures
        alphabetical(name_views(names@)),
        name_views(names@).to_multiset() == improvements@.map_values(
            |improvement: CityImprovement| improvement_name(improvement),
        ).to_multiset(),
{
    let mut names: Vec<&'static str> = Vec::new();
    let mut i: usize = 0;
    proof {
        assert(name_views(names@) =~= Seq::<Seq<char>>::empty());
        assert(improvements@.take(0).map_values(|improvement: CityImprovement| improvement_name(improvement))
            =~= Seq::<Seq<char>>::empty());
    }
    while i < improvements.len()
        invariant
            i <= improvements.len(),
            alphabetical(name_views(names@)),
            name_views(names@).to_multiset() == improvements@.take(i as int).map_values(
                |improvement: CityImprovement| improvement_name(improvement),
            ).to_multiset(),
        decreases improvements.len() - i,
    {
        let improvement = improvements[i];
        insert_name(&mut names, improvement.name());
        proof {
            let f = |improvement: CityImprovement| improvement_name(improvement);
            assert(improvements@.take(i + 1).map_values(f) =~= improvements@.take(i as int).map_values(f).push(
                improvement_name(improvement),
            ));
            vstd::seq_lib::to_multiset_build(improvements@.take(i as int).map_values(f), improvement_name(improvement));
        }
        i = i + 1;
    }
    proof {
        assert(improvements@.take(i as int) =~= improvements@);
    }
    names
}

/// The height of the scrollbar's thumb on a track `track` cells tall for a
/// list of `total` rows: the visible share of the track, at least one cell.
pub open spec fn thumb_height(track: int, total: int) -> int {
    if track * track / total >= 1 {
        track * track / total
    } else {
        1
    }
}

/// The scrollbar's thumb on a track `track` cells tall for a list of
/// `total` rows showing `track` at a time from row `offset`: where it
/// starts and how tall it is. No thumb when the whole list fits.
pub open spec fn thumb_of(track: int, total: int, offset: int) -> Option<(int, int)> {
    if total <= track {
        None
    } else {
        let height = thumb_height(track, total);
        Some(((track - height) * offset / (total - track), height))
    }
}

/// The improvements scrollbar's thumb: where on the `track` it starts and
/// how tall it is, for a list of `total` rows scrolled to `offset`. `None`
/// when every row fits on the track and no scrollbar is drawn.
pub fn scrollbar_thumb(track: u16, total: usize, offset: usize) -> (thumb: Option<(u16, u16)>)
    requires
        track > 0,
        total <= u32::MAX,
        total > track ==> offset <= total - track,
        total > track ==> (track - thumb_height(track as int, total as int)) * offset <= u32::MAX,
    ensures
        thumb matches Some(t) ==> thumb_of(track as int, total as int, offset as int) == Some(
            (t.0 as int, t.1 as int),
        ),
        thumb is None ==> thumb_of(track as int, total as int, offset as int) is None,
{
    let visible = track as usize;
    if total <= visible {
        return None;
    }
    proof {
        let t = track as int;
        assert(t * t <= u32::MAX) by (nonlinear_arith)
            requires
                0 <= t <= u16::MAX,
        ;
    }
    let tall = (track as u32) * (track as u32) / (total as u32);
    proof {
        let t = track as int;
        let n = total as int;
        assert(t * t / n <= t) by (nonlinear_arith)
            requires
                0 <= t < n,
        ;
    }
    let height: u16 = if tall >= 1 {
        tall as u16
    } else {
        1
    };
    let max_offset = (total - visible) as u32;
    let start = ((track - height) as u32) * (offset as u32) / max_offset;
    proof {
        let gap = (track - height) as int;
        let o = offset as int;
        let m = max_offset as int;
        assert(gap * o / m <= gap) by (nonlinear_arith)
            requires
                0 <= gap,
                0 <= o <= m,
                m > 0,
        ;
    }
    Some((start as u16, height))
}

/// The scrollbar's thumb always lies on its track and is at least one cell
/// tall; it sits at the top when the list is not scrolled and at the bottom
/// when it is scrolled all the way.
pub proof fn lemma_thumb_on_track(track: int, total: int, offset: int)
    requires
        0 < track < total,
        0 <= offset <= total - track,
    ensures
        thumb_of(track, total, offset) matches Some((start, height)) && 1 <= height && 0 <= start
            && start + height <= track && (offset == 0 ==> start == 0) && (offset == total - track
            ==> start + height == track),
{
    let tall = track * track / total;
    assert(tall <= track) by (nonlinear_arith)
        requires
            0 < track < total,
            tall == track * track / total,
    ;
    let height = thumb_height(track, total);
    let start = (track - height) * offset / (total - track);
    assert(0 <= start <= track - height) by (nonlinear_arith)
        requires
            0 <= offset <= total - track,
            0 <= track - height,
            start == (track - height) * offset / (total - track),
            total - track > 0,
    ;
    if offset == total - track {
        assert(start == track - height) by (nonlinear_arith)
            requires
                offset == total - track,
                total - track > 0,
                start == (track - height) * offset / (total - track),
        ;
    }
}

/// The world tile a cell of the city's mini-map shows: the five-by-five
/// block centred on the city, each tile two cells wide, wrapping east to
/// west; rows beyond the north or south edge show the void below the map
/// (row `map_h`).
pub open spec fn minimap_tile_of(city: Location, col: int, row: int, map_w: int, map_h: int) -> (int, int) {
    let raw_y = city.y + row - 2;
    ((city.x + col / 2 - 2) % map_w, if 0 <= raw_y < map_h {
        raw_y
    } else {
        map_h
    })
}

/// The world tile a cell of the city's mini-map shows: the five-by-five
/// block centred on the city, each tile two cells wide, wrapping east to
/// west; rows beyond the north or south edge show the void below the map.
pub fn minimap_tile(city: Location, col: u16, row: u16, map_w: usize, map_h: usize) -> (tile: (usize, usize))
    requires
        0 < map_w <= i32::MAX,
        map_h <= i32::MAX,
    ensures
        tile.0 as int == minimap_tile_of(city, col as int, row as int, map_w as int, map_h as int).0,
        tile.1 as int == minimap_tile_of(city, col as int, row as int, map_w as int, map_h as int).1,
{
    let raw_x = city.x as i64 + (col / 2) as i64 - 2;
    let width = map_w as i64;
    let r = raw_x % width;
    let wx = if r < 0 {
        r + width
    } else {
        r
    };
    proof {
        crate::map_view::lemma_wrap_column(raw_x as int, 0, width as int);
    }
    let raw_y = city.y as i64 + row as i64 - 2;
    let wy = if 0 <= raw_y && raw_y < map_h as i64 {
        raw_y as usize
    } else {
        map_h
    };
    (wx as usize, wy)
}

} // verus!
