use ratatui::layout::{Constraint, Direction, Layout};
use rustored::ui::layouts::Rect;
use rustored::ui::renderer::centered_rect;

fn ratatui_centered(percent_x: u16, percent_y: u16, height_is_length: bool, r: ratatui::layout::Rect) -> ratatui::layout::Rect {
    let middle = if height_is_length { Constraint::Length(percent_y) } else { Constraint::Percentage(percent_y) };
    let rows = Layout::default()
        .direction(Direction::Vertical)
        .constraints([Constraint::Percentage((100 - percent_y) / 2), middle, Constraint::Percentage((100 - percent_y) / 2)])
        .split(r);
    Layout::default()
        .direction(Direction::Horizontal)
        .constraints([
            Constraint::Percentage((100 - percent_x) / 2),
            Constraint::Percentage(percent_x),
            Constraint::Percentage((100 - percent_x) / 2),
        ])
        .split(rows[1])[1]
}

fn same(a: Rect, b: ratatui::layout::Rect) {
    assert_eq!((a.x, a.y, a.width, a.height), (b.x, b.y, b.width, b.height));
}

#[test]
fn test_centered_rect() {
    let base = Rect { x: 0, y: 0, width: 100, height: 50 };
    let base_rt = ratatui::layout::Rect::new(0, 0, 100, 50);

    let rect1 = centered_rect(60, 10, base);
    let rect2 = centered_rect(80, 20, base);
    let rect3 = centered_rect(40, 30, base);

    same(rect1, ratatui_centered(60, 10, false, base_rt));
    same(rect2, ratatui_centered(80, 20, false, base_rt));
    same(rect3, ratatui_centered(40, 30, false, base_rt));
    assert_eq!(rect1.width, 60);
    assert!(rect1.x > 0 && rect1.y > 0);
}

#[test]
fn popup_area_with_fixed_height() {
    let base = Rect { x: 0, y: 0, width: 120, height: 40 };
    let base_rt = ratatui::layout::Rect::new(0, 0, 120, 40);
    let r = rustored::ui::layouts::centered_rect(60, 5, base);
    same(r, ratatui_centered(60, 5, true, base_rt));
    assert_eq!(r.height, 5);
    assert_eq!(r.width, 72);
}

#[test]
fn main_layout_matches_ratatui() {
    let area = ratatui::layout::Rect::new(0, 0, 120, 40);
    let l = rustored::ui::layouts::main_layout(Rect { x: 0, y: 0, width: 120, height: 40 });
    let screen = Layout::default()
        .direction(Direction::Vertical)
        .constraints([Constraint::Length(3), Constraint::Min(0), Constraint::Length(1)])
        .split(area);
    let body = Layout::default()
        .direction(Direction::Vertical)
        .constraints([Constraint::Length(10), Constraint::Min(0)])
        .split(screen[1]);
    let top = Layout::default()
        .direction(Direction::Horizontal)
        .constraints([Constraint::Percentage(30), Constraint::Percentage(30), Constraint::Percentage(40)])
        .split(body[0]);
    same(l.title, screen[0]);
    same(l.status, screen[2]);
    same(l.snapshots, body[1]);
    same(l.s3_settings, top[0]);
    same(l.target_list, top[1]);
    same(l.target_settings, top[2]);
    assert_eq!(l.title.height, 3);
    assert_eq!(l.status.height, 1);
}

fn inside(p: Rect, a: Rect) -> bool {
    a.x <= p.x && p.x as u32 + p.width as u32 <= a.x as u32 + a.width as u32 && a.y <= p.y
        && p.y as u32 + p.height as u32 <= a.y as u32 + a.height as u32
}

#[test]
fn panel_rows_match_ratatui() {
    let area = Rect { x: 2, y: 3, width: 40, height: 10 };
    let area_rt = ratatui::layout::Rect::new(2, 3, 40, 10);
    let rows = rustored::ui::layouts::s3_panel_rows(area);
    let expected = Layout::default().direction(Direction::Vertical).margin(1).constraints([Constraint::Length(1); 7]).split(area_rt);
    assert_eq!(rows.len(), 7);
    for i in 0..7 {
        same(rows[i], expected[i]);
        assert!(inside(rows[i], area));
    }
    let rows = rustored::ui::layouts::target_list_rows(area);
    let expected = Layout::default().direction(Direction::Vertical).margin(1).constraints([Constraint::Min(3), Constraint::Length(1)]).split(area_rt);
    same(rows[0], expected[0]);
    same(rows[1], expected[1]);
    let rows = rustored::ui::layouts::settings_table_rows(area);
    let inner = ratatui::widgets::Block::default().title("t").borders(ratatui::widgets::Borders::ALL).inner(area_rt);
    let expected = Layout::default()
        .direction(Direction::Vertical)
        .constraints([Constraint::Min(0), Constraint::Length(1), Constraint::Length(1)])
        .split(inner);
    for i in 0..3 {
        same(rows[i], expected[i]);
    }
    let tiny = rustored::ui::layouts::margin_inner(Rect { x: 5, y: 5, width: 1, height: 9 });
    assert_eq!(tiny, Rect { x: 0, y: 0, width: 0, height: 0 });
    let b = rustored::ui::layouts::bordered_inner(Rect { x: 5, y: 5, width: 1, height: 9 });
    let b_rt = ratatui::widgets::Block::default().borders(ratatui::widgets::Borders::ALL).inner(ratatui::layout::Rect::new(5, 5, 1, 9));
    same(b, b_rt);
}

#[test]
fn popups_stay_inside_the_screen() {
    for (w, h) in [(120u16, 40u16), (10, 3), (1, 1), (0, 0)] {
        let area = Rect { x: 0, y: 0, width: w, height: h };
        assert!(inside(rustored::ui::layouts::centered_rect(60, 5, area), area));
        assert!(inside(centered_rect(60, 20, area), area));
        let l = rustored::ui::layouts::main_layout(area);
        for p in [l.title, l.s3_settings, l.target_list, l.target_settings, l.snapshots, l.status] {
            assert!(inside(p, area));
        }
    }
}
