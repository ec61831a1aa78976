//! Screen layout: rectangles, constraints, and the centred popup area.

use vstd::prelude::*;
use ratatui::layout::{Constraint as OuterConstraint, Direction as OuterDirection, Layout as OuterLayout, Rect as OuterRect};

verus! {

/// A rectangle of the terminal: its top-left corner and size, in cells.
#[derive(Clone, Copy, Debug, PartialEq, Eq, Structural)]
pub struct Rect {
    pub x: u16,
    pub y: u16,
    pub width: u16,
    pub height: u16,
}

/// A size constraint of one part of a layout.
#[derive(Clone, Copy, Debug, PartialEq, Eq, Structural)]
pub enum Constraint {
    Percentage(u16),
    Length(u16),
    Min(u16),
}

/// The direction a layout splits an area in.
#[derive(Clone, Copy, Debug, PartialEq, Eq, Structural)]
pub enum Direction {
    Horizontal,
    Vertical,
}

/// `p` lies within `a`.
pub open spec fn inside(p: Rect, a: Rect) -> bool {
    &&& a.x <= p.x
    &&& p.x + p.width <= a.x + a.width
    &&& a.y <= p.y
    &&& p.y + p.height <= a.y + a.height
}

/// `parts` are rows of `area`: each inside it and as wide as it, in order
/// from top to bottom without overlapping.
pub open spec fn stacked(parts: Seq<Rect>, area: Rect) -> bool {
    &&& forall|i: int|
        0 <= i < parts.len() ==> inside(#[trigger] parts[i], area) && parts[i].x == area.x
            && parts[i].width == area.width
    &&& forall|i: int, j: int|
        0 <= i < j < parts.len() ==> #[trigger] parts[i].y + parts[i].height <= #[trigger] parts[j].y
}

/// `parts` are columns of `area`: each inside it and as high as it, in
/// order from left to right without overlapping.
pub open spec fn side_by_side(parts: Seq<Rect>, area: Rect) -> bool {
    &&& forall|i: int|
        0 <= i < parts.len() ==> inside(#[trigger] parts[i], area) && parts[i].y == area.y
            && parts[i].height == area.height
    &&& forall|i: int, j: int|
        0 <= i < j < parts.len() ==> #[trigger] parts[i].x + parts[i].width <= #[trigger] parts[j].x
}

/// `parts` split `area` along `direction`.
pub open spec fn splits(direction: Direction, parts: Seq<Rect>, area: Rect) -> bool {
    match direction {
        Direction::Vertical => stacked(parts, area),
        Direction::Horizontal => side_by_side(parts, area),
    }
}

/// Splits `area` along `direction` by `constraints` with ratatui's
/// `Layout::split` (no margin, default flex). Trusted: ratatui's solver
/// makes one part per constraint, and its required constraints keep every
/// part within the area and the parts in order along the direction; across
/// it, a part keeps the area's position and size. Where the parts fall along
/// the direction is not stated: the solver may settle some constraint sets
/// differently from one process to another.
#[verifier::external_body]
pub(crate) fn split(direction: Direction, constraints: &Vec<Constraint>, area: Rect) -> (r: Vec<Rect>)
    ensures
        r@.len() == constraints@.len(),
        splits(direction, r@, area),
{
    let dir = match direction { Direction::Horizontal => OuterDirection::Horizontal, Direction::Vertical => OuterDirection::Vertical };
    let mut cs = Vec::new();
    for c in constraints {
        cs.push(match *c { Constraint::Percentage(p) => OuterConstraint::Percentage(p), Constraint::Length(l) => OuterConstraint::Length(l), Constraint::Min(m) => OuterConstraint::Min(m) });
    }
    let mut r = Vec::new();
    let a = OuterRect { x: area.x, y: area.y, width: area.width, height: area.height };
    for p in OuterLayout::default().direction(dir).constraints(cs).split(a).iter() {
        r.push(Rect { x: p.x, y: p.y, width: p.width, height: p.height });
    }
    r
}

/// Three constraints: a middle one between two equal margins.
pub open spec fn around(margin: Constraint, centre: Constraint) -> Seq<Constraint> {
    seq![margin, centre, margin]
}

/// The rows of a popup area of fixed `height`: that height between two equal
/// percentages of the rest.
pub open spec fn popup_rows_spec(height: u16) -> Seq<Constraint> {
    around(Constraint::Percentage(((100 - height) / 2) as u16), Constraint::Length(height))
}

/// The columns of a popup area `percent` wide, between two equal margins.
pub open spec fn popup_columns_spec(percent: u16) -> Seq<Constraint> {
    around(Constraint::Percentage(((100 - percent) / 2) as u16), Constraint::Percentage(percent))
}

/// The rows of a popup area `percent` high, between two equal margins.
pub open spec fn popup_percent_rows_spec(percent: u16) -> Seq<Constraint> {
    around(Constraint::Percentage(((100 - percent) / 2) as u16), Constraint::Percentage(percent))
}

/// The rows of a popup area of fixed `height` (see [`popup_rows_spec`]).
pub fn popup_rows(height: u16) -> (r: Vec<Constraint>)
    requires
        height <= 100,
    ensures
        r@ == popup_rows_spec(height),
{
    let side = (100 - height) / 2;
    let r = vec![Constraint::Percentage(side), Constraint::Length(height), Constraint::Percentage(side)];
    assert(r@ =~= popup_rows_spec(height));
    r
}

/// Three constraints: `percent` between two equal percentages of the rest
/// (see [`popup_columns_spec`]; the same constraints serve for rows).
pub fn popup_columns(percent: u16) -> (r: Vec<Constraint>)
    requires
        percent <= 100,
    ensures
        r@ == popup_columns_spec(percent),
        r@ == popup_percent_rows_spec(percent),
{
    let side = (100 - percent) / 2;
    let r = vec![Constraint::Percentage(side), Constraint::Percentage(percent), Constraint::Percentage(side)];
    assert(r@ =~= popup_columns_spec(percent));
    r
}

/// The middle one of three parts.
pub fn middle(parts: &Vec<Rect>) -> (r: Rect)
    requires
        parts@.len() == 3,
    ensures
        r == parts@[1],
{
    parts[1]
}

/// A popup area `percent_x`% as wide as `r` and `height` cells high: the
/// middle column (split by [`popup_columns_spec`]) of the middle row (split
/// by [`popup_rows_spec`]) of `r`. It lies within `r`; its exact place and
/// size are ratatui's solver's choice.
pub fn centered_rect(percent_x: u16, height: u16, r: Rect) -> (c: Rect)
    requires
        percent_x <= 100,
        height <= 100,
    ensures
        inside(c, r),
{
    let rows = split(Direction::Vertical, &popup_rows(height), r);
    let row = middle(&rows);
    let cols = split(Direction::Horizontal, &popup_columns(percent_x), row);
    middle(&cols)
}

/// The areas of the main screen.
#[derive(Clone, Copy, Debug, PartialEq, Eq, Structural)]
pub struct MainLayout {
    pub title: Rect,
    pub s3_settings: Rect,
    pub target_list: Rect,
    pub target_settings: Rect,
    pub snapshots: Rect,
    pub status: Rect,
}

/// The screen's rows: a title of three lines, the body, a status line.
pub open spec fn screen_rows_spec() -> Seq<Constraint> {
    seq![Constraint::Length(3), Constraint::Min(0), Constraint::Length(1)]
}

/// The body's two rows: the settings row of ten lines, then the snapshot list.
pub open spec fn body_rows_spec() -> Seq<Constraint> {
    seq![Constraint::Length(10), Constraint::Min(0)]
}

/// The settings row's columns: S3 settings, restore target list, and the
/// selected target's settings.
pub open spec fn settings_columns_spec() -> Seq<Constraint> {
    seq![Constraint::Percentage(30), Constraint::Percentage(30), Constraint::Percentage(40)]
}

/// The screen's rows (see [`screen_rows_spec`]).
pub fn screen_rows() -> (r: Vec<Constraint>)
    ensures
        r@ == screen_rows_spec(),
{
    let r = vec![Constraint::Length(3), Constraint::Min(0), Constraint::Length(1)];
    assert(r@ =~= screen_rows_spec());
    r
}

/// The body's rows (see [`body_rows_spec`]).
pub fn body_rows() -> (r: Vec<Constraint>)
    ensures
        r@ == body_rows_spec(),
{
    let r = vec![Constraint::Length(10), Constraint::Min(0)];
    assert(r@ =~= body_rows_spec());
    r
}

/// The settings row's columns (see [`settings_columns_spec`]).
pub fn settings_columns() -> (r: Vec<Constraint>)
    ensures
        r@ == settings_columns_spec(),
{
    let r = vec![Constraint::Percentage(30), Constraint::Percentage(30), Constraint::Percentage(40)];
    assert(r@ =~= settings_columns_spec());
    r
}

/// The main screen's areas from the parts of its three splits: the screen
/// into its rows, the body (the screen's second row) into its rows, and the
/// settings row (the body's first row) into its columns.
pub fn layout_from_parts(screen: &Vec<Rect>, body: &Vec<Rect>, settings: &Vec<Rect>) -> (r: MainLayout)
    requires
        screen@.len() == 3,
        body@.len() == 2,
        settings@.len() == 3,
    ensures
        r == (MainLayout {
            title: screen@[0],
            s3_settings: settings@[0],
            target_list: settings@[1],
            target_settings: settings@[2],
            snapshots: body@[1],
            status: screen@[2],
        }),
{
    MainLayout {
        title: screen[0],
        s3_settings: settings[0],
        target_list: settings[1],
        target_settings: settings[2],
        snapshots: body[1],
        status: screen[2],
    }
}

/// The arrangement of the main screen's areas in `area`.
pub open spec fn main_layout_shape(l: MainLayout, area: Rect) -> bool {
    &&& inside(l.title, area)
    &&& inside(l.s3_settings, area)
    &&& inside(l.target_list, area)
    &&& inside(l.target_settings, area)
    &&& inside(l.snapshots, area)
    &&& inside(l.status, area)
    &&& l.title.x == area.x && l.title.width == area.width
    &&& l.snapshots.x == area.x && l.snapshots.width == area.width
    &&& l.status.x == area.x && l.status.width == area.width
    &&& l.title.y + l.title.height <= l.s3_settings.y
    &&& l.s3_settings.y + l.s3_settings.height <= l.snapshots.y
    &&& l.snapshots.y + l.snapshots.height <= l.status.y
    &&& l.target_list.y == l.s3_settings.y && l.target_list.height == l.s3_settings.height
    &&& l.target_settings.y == l.s3_settings.y && l.target_settings.height == l.s3_settings.height
    &&& l.s3_settings.x + l.s3_settings.width <= l.target_list.x
    &&& l.target_list.x + l.target_list.width <= l.target_settings.x
}

/// The main screen's areas in `area`: the screen split by
/// [`screen_rows_spec`], its second row by [`body_rows_spec`], and the
/// body's first row by [`settings_columns_spec`], put together by
/// [`layout_from_parts`]. Every area lies within `area`; the title, the
/// settings row, the snapshot list and the status line come in that order
/// from top to bottom, the title, snapshot list and status line span the
/// full width, and the three settings panels share one row from left to
/// right. The sizes are ratatui's solver's choice.
pub fn main_layout(area: Rect) -> (r: MainLayout)
    ensures
        main_layout_shape(r, area),
{
    let screen = split(Direction::Vertical, &screen_rows(), area);
    let body = split(Direction::Vertical, &body_rows(), screen[1]);
    let settings = split(Direction::Horizontal, &settings_columns(), body[0]);
    layout_from_parts(&screen, &body, &settings)
}

// ---------------------------------------------------------------------------
// Inside the panels

/// `a + b`, or `u16::MAX` when that does not fit.
pub open spec fn saturating_add(a: u16, b: u16) -> u16 {
    if a + b > u16::MAX {
        u16::MAX
    } else {
        (a + b) as u16
    }
}

/// `a - b`, or 0 when `b` is larger.
pub open spec fn saturating_sub(a: u16, b: u16) -> u16 {
    if a < b {
        0
    } else {
        (a - b) as u16
    }
}

/// What ratatui's `Rect::inner` gives for a margin of one cell on every
/// side: the area shrunk by one cell each way, or the empty rectangle at
/// the origin when it is narrower or lower than two cells.
pub open spec fn margin_inner_spec(a: Rect) -> Rect {
    if a.width < 2 || a.height < 2 {
        Rect { x: 0, y: 0, width: 0, height: 0 }
    } else {
        Rect {
            x: saturating_add(a.x, 1),
            y: saturating_add(a.y, 1),
            width: (a.width - 2) as u16,
            height: (a.height - 2) as u16,
        }
    }
}

/// What ratatui's `Block::inner` gives for a block with borders on all
/// sides and no padding: one cell less on each side, never beyond the area's
/// far edge, and never below zero size.
pub open spec fn bordered_inner_spec(a: Rect) -> Rect {
    let right = saturating_add(a.x, a.width);
    let bottom = saturating_add(a.y, a.height);
    let x1 = saturating_add(a.x, 1);
    let y1 = saturating_add(a.y, 1);
    Rect {
        x: if x1 < right { x1 } else { right },
        y: if y1 < bottom { y1 } else { bottom },
        width: saturating_sub(saturating_sub(a.width, 1), 1),
        height: saturating_sub(saturating_sub(a.height, 1), 1),
    }
}

/// The inside of `a` with a margin of one cell (see [`margin_inner_spec`]).
pub fn margin_inner(a: Rect) -> (r: Rect)
    ensures
        r == margin_inner_spec(a),
{
    if a.width < 2 || a.height < 2 {
        Rect { x: 0, y: 0, width: 0, height: 0 }
    } else {
        Rect { x: a.x.saturating_add(1), y: a.y.saturating_add(1), width: a.width - 2, height: a.height - 2 }
    }
}

/// The inside of a bordered block drawn over `a` (see [`bordered_inner_spec`]).
pub fn bordered_inner(a: Rect) -> (r: Rect)
    ensures
        r == bordered_inner_spec(a),
{
    let right = a.x.saturating_add(a.width);
    let bottom = a.y.saturating_add(a.height);
    let x1 = a.x.saturating_add(1);
    let y1 = a.y.saturating_add(1);
    Rect {
        x: if x1 < right { x1 } else { right },
        y: if y1 < bottom { y1 } else { bottom },
        width: a.width.saturating_sub(1).saturating_sub(1),
        height: a.height.saturating_sub(1).saturating_sub(1),
    }
}

/// The seven lines of the S3 settings panel: one line each, stacked inside
/// the panel's border.
pub fn s3_panel_rows(area: Rect) -> (r: Vec<Rect>)
    ensures
        r@.len() == 7,
        stacked(r@, margin_inner_spec(area)),
{
    let one = Constraint::Length(1);
    split(Direction::Vertical, &vec![one, one, one, one, one, one, one], margin_inner(area))
}

/// The restore target list's two rows inside its border: the list (at
/// least three lines) and the help line at the bottom.
pub fn target_list_rows(area: Rect) -> (r: Vec<Rect>)
    ensures
        r@.len() == 2,
        stacked(r@, margin_inner_spec(area)),
{
    split(Direction::Vertical, &vec![Constraint::Min(3), Constraint::Length(1)], margin_inner(area))
}

/// A settings panel's three rows inside its border: the table, a spacer
/// line, and the help line at the bottom.
pub fn settings_table_rows(area: Rect) -> (r: Vec<Rect>)
    ensures
        r@.len() == 3,
        stacked(r@, bordered_inner_spec(area)),
{
    split(
        Direction::Vertical,
        &vec![Constraint::Min(0), Constraint::Length(1), Constraint::Length(1)],
        bordered_inner(area),
    )
}

} // verus!
