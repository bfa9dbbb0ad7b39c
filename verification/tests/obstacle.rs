use flappy::{DrawCommand, Obstacle, SCREEN_HEIGHT, SCREEN_WIDTH};

fn bar(x: i32, y: i32) -> DrawCommand {
    DrawCommand::Text { x, y, text: String::from("|") }
}

#[test]
fn screen_is_80_by_50() {
    assert_eq!(SCREEN_WIDTH, 80);
    assert_eq!(SCREEN_HEIGHT, 50);
}

#[test]
fn new_obstacle_stands_at_the_right_edge() {
    assert_eq!(Obstacle::new(), Obstacle { x: 80, gap_y: 20, size: 10 });
}

#[test]
fn mov_goes_one_column_left() {
    let mut o = Obstacle::new();
    o.mov();
    assert_eq!(o, Obstacle { x: 79, gap_y: 20, size: 10 });
    o.mov();
    assert_eq!(o.x, 78);
}

#[test]
fn mov_wraps_instead_of_reaching_column_0() {
    let mut o = Obstacle { x: 2, gap_y: 7, size: 3 };
    o.mov();
    assert_eq!(o, Obstacle { x: 1, gap_y: 7, size: 3 });
    o.mov();
    assert_eq!(o, Obstacle { x: 80, gap_y: 7, size: 3 });
}

#[test]
fn mov_left_of_the_screen_keeps_going_left() {
    let mut o = Obstacle { x: 0, gap_y: 20, size: 10 };
    o.mov();
    assert_eq!(o.x, -1);
    o.mov();
    assert_eq!(o.x, -2);
}

#[test]
fn eighty_movs_from_column_80_come_back_to_80() {
    let mut o = Obstacle::new();
    for step in 1..80 {
        o.mov();
        assert_eq!(o.x, 80 - step);
    }
    o.mov();
    assert_eq!(o, Obstacle::new());
}

#[test]
fn mov_has_period_80_from_every_column_of_the_screen() {
    for x in 1..=80 {
        let start = Obstacle { x, gap_y: 20, size: 10 };
        let mut o = start;
        for _ in 0..80 {
            o.mov();
            assert!(1 <= o.x && o.x <= 80);
        }
        assert_eq!(o, start);
    }
}

#[test]
fn wall_is_drawn_above_and_below_the_gap() {
    let commands = Obstacle::new().render();
    assert_eq!(commands.len(), 40);
    for row in 0..20 {
        assert_eq!(commands[row as usize], bar(80, row));
    }
    for row in 30..50 {
        assert_eq!(commands[(row - 10) as usize], bar(80, row));
    }
}

#[test]
fn wall_follows_the_obstacle_column() {
    let commands = Obstacle { x: 5, gap_y: 2, size: 46 }.render();
    assert_eq!(commands, vec![bar(5, 0), bar(5, 1), bar(5, 48), bar(5, 49)]);
}

#[test]
fn gap_at_the_top_leaves_only_the_lower_wall() {
    let commands = Obstacle { x: 9, gap_y: 0, size: 48 }.render();
    assert_eq!(commands, vec![bar(9, 48), bar(9, 49)]);
    let commands = Obstacle { x: 9, gap_y: -3, size: 51 }.render();
    assert_eq!(commands, vec![bar(9, 48), bar(9, 49)]);
}

#[test]
fn gap_to_the_bottom_leaves_only_the_upper_wall() {
    let commands = Obstacle { x: 9, gap_y: 2, size: 48 }.render();
    assert_eq!(commands, vec![bar(9, 0), bar(9, 1)]);
    let commands = Obstacle { x: 9, gap_y: 1, size: 1000 }.render();
    assert_eq!(commands, vec![bar(9, 0)]);
}

#[test]
fn gap_of_no_height_gives_a_whole_wall() {
    let commands = Obstacle { x: 9, gap_y: 10, size: 0 }.render();
    assert_eq!(commands.len(), 50);
    for row in 0..50 {
        assert_eq!(commands[row as usize], bar(9, row));
    }
}

#[test]
fn gap_that_ends_above_the_screen_starts_the_wall_there() {
    let commands = Obstacle { x: 1, gap_y: -5, size: 3 }.render();
    assert_eq!(commands.len(), 52);
    assert_eq!(commands[0], bar(1, -2));
    assert_eq!(commands[51], bar(1, 49));
}

#[test]
fn render_fits_tells_when_the_gap_end_would_overflow() {
    assert!(Obstacle::new().render_fits());
    assert!(Obstacle { x: 1, gap_y: i32::MAX, size: 0 }.render_fits());
    assert!(!Obstacle { x: 1, gap_y: i32::MAX, size: 1 }.render_fits());
    assert!(!Obstacle { x: 1, gap_y: i32::MIN, size: -1 }.render_fits());
}
