use rect_clip::common::{Color, ColorConfig, LineClipping, Point};
use rect_clip::lines_manager::LinesManager;
use rect_clip::selection::RectangleSelection;

fn config() -> ColorConfig {
    ColorConfig {
        selection_outline: Color { r: 255, g: 0, b: 0 },
        inside: Color { r: 200, g: 40, b: 40 },
        outside: Color { r: 150, g: 150, b: 150 },
        partial: Color { r: 255, g: 80, b: 80 },
    }
}

#[test]
fn generated_lines_stay_in_the_draw_area() {
    let mut manager = LinesManager::new(config());
    manager.set_draw_area_size(100, 60);
    manager.set_lines_count(25);
    assert_eq!(manager.lines.len(), 25);
    for line in &manager.lines {
        for p in [line.0, line.1] {
            assert!((-50..50).contains(&p.x), "x out of area: {}", p.x);
            assert!((-30..30).contains(&p.y), "y out of area: {}", p.y);
        }
    }
}

#[test]
fn setting_the_count_regenerates_the_population() {
    let mut manager = LinesManager::new(config());
    manager.set_draw_area_size(100, 60);
    manager.set_lines_count(5);
    assert_eq!(manager.lines.len(), 5);
    manager.set_lines_count(2);
    assert_eq!(manager.lines.len(), 2);
    manager.set_lines_count(0);
    assert!(manager.lines.is_empty());
}

#[test]
fn an_empty_population_needs_no_draw_area() {
    let mut manager = LinesManager::new(config());
    manager.set_lines_count(0);
    assert!(manager.lines.is_empty());
    assert!(manager.draw().is_empty());
}

#[test]
fn the_plain_draw_plan_uses_the_default_color() {
    let mut manager = LinesManager::new(config());
    manager.set_draw_area_size(100, 60);
    manager.set_lines_count(7);
    let cmds = manager.draw();
    assert_eq!(cmds.len(), 7);
    for (i, (line, color)) in cmds.iter().enumerate() {
        assert_eq!(*line, manager.lines[i]);
        assert_eq!(*color, config().outside);
    }
}

#[test]
fn a_covering_selection_draws_everything_in_the_inside_color() {
    let mut manager = LinesManager::new(config());
    manager.set_draw_area_size(100, 60);
    manager.set_lines_count(9);
    let sel = RectangleSelection::new(Point::new(-60, -40), Point::new(60, 40));
    let cmds = manager.draw_with_selection_check(&sel);
    assert_eq!(cmds.len(), 9);
    for (i, (line, color)) in cmds.iter().enumerate() {
        assert_eq!(*line, manager.lines[i]);
        assert_eq!(*color, config().inside);
    }
}

#[test]
fn a_distant_selection_draws_everything_in_the_outside_color() {
    let mut manager = LinesManager::new(config());
    manager.set_draw_area_size(100, 60);
    manager.set_lines_count(9);
    let sel = RectangleSelection::new(Point::new(1000, 1000), Point::new(2000, 2000));
    let cmds = manager.draw_with_selection_check(&sel);
    assert_eq!(cmds.len(), 9);
    for (line, color) in &cmds {
        assert_eq!(*color, config().outside);
        assert!(manager.lines.contains(line));
    }
}

#[test]
fn the_selection_plan_follows_each_clipping_outcome() {
    let mut manager = LinesManager::new(config());
    manager.set_draw_area_size(100, 60);
    manager.set_lines_count(40);
    let sel = RectangleSelection::new(Point::new(-20, -12), Point::new(20, 12));

    // The expected plan, segment by segment from the clipping engine: an
    // inside segment in the inside color, an outside one in the outside
    // color, a partly covered one in the outside color followed by its
    // visible part in the partial color.
    let mut expected = Vec::new();
    for line in &manager.lines {
        match sel.clipping_check(line) {
            LineClipping::Inside => expected.push((*line, config().inside)),
            LineClipping::Outside => expected.push((*line, config().outside)),
            LineClipping::PartlyInside(part) => {
                expected.push((*line, config().outside));
                expected.push((part, config().partial));
            }
        }
    }
    assert_eq!(manager.draw_with_selection_check(&sel), expected);
}
