use state_machine_atm::enums::{exercise1, Direction, Message, Point, State};

#[test]
fn exercise2_should_work() {
    let mut state = State {
        quit: false,
        position: Point { x: 0, y: 0 },
        color: (0, 0, 0),
    };
    state.process(Message::ChangeColor(255, 0, 255));
    state.process(Message::Echo(String::from("hello world")));
    state.process(Message::Move(Point { x: 10, y: 15 }));
    state.process(Message::Quit);

    assert_eq!(state.color, (255, 0, 255));
    assert_eq!(state.position.x, 10);
    assert_eq!(state.position.y, 15);
    assert_eq!(state.quit, true);
}

#[test]
fn exercise3_should_work() {
    assert_eq!(Direction::North.opposite(), Direction::South);
    assert_eq!(Direction::East.opposite(), Direction::West);
    assert_eq!(Direction::South.opposite(), Direction::North);
    assert_eq!(Direction::West.opposite(), Direction::East);
}

#[test]
fn opposite_twice_is_where_one_started() {
    for direction in [Direction::North, Direction::East, Direction::South, Direction::West] {
        assert_eq!(direction.opposite().opposite(), direction);
        assert_ne!(direction.opposite(), direction);
    }
}

#[test]
fn process_returns_the_text_to_say() {
    let mut state = State { quit: false, position: Point { x: 3, y: 4 }, color: (1, 2, 3) };
    let said = state.process(Message::Echo(String::from("hello world")));
    assert_eq!(said, Some(String::from("hello world")));
    let said = state.process(Message::Write(String::from("")));
    assert_eq!(said, Some(String::new()));
    assert_eq!(state.color, (1, 2, 3));
    assert_eq!(state.position, Point { x: 3, y: 4 });
    assert_eq!(state.quit, false);
}

#[test]
fn process_says_nothing_on_the_other_messages() {
    let mut state = State { quit: false, position: Point { x: 0, y: 0 }, color: (0, 0, 0) };
    assert_eq!(state.process(Message::ChangeColor(1, 2, 3)), None);
    assert_eq!(state.process(Message::Move(Point { x: 1, y: 1 })), None);
    assert_eq!(state.process(Message::Quit), None);
}

#[test]
fn process_changes_one_field_at_a_time() {
    let mut state = State { quit: false, position: Point { x: 7, y: 8 }, color: (9, 9, 9) };
    state.process(Message::ChangeColor(10, 20, 30));
    assert_eq!(state.color, (10, 20, 30));
    assert_eq!(state.position, Point { x: 7, y: 8 });
    assert_eq!(state.quit, false);
    state.process(Message::Move(Point { x: 255, y: 0 }));
    assert_eq!(state.color, (10, 20, 30));
    assert_eq!(state.position, Point { x: 255, y: 0 });
    assert_eq!(state.quit, false);
    state.process(Message::Quit);
    assert_eq!(state.color, (10, 20, 30));
    assert_eq!(state.position, Point { x: 255, y: 0 });
    assert_eq!(state.quit, true);
}

#[test]
fn colour_parts_outside_a_channel_wrap_round() {
    let mut state = State { quit: false, position: Point { x: 0, y: 0 }, color: (0, 0, 0) };
    state.process(Message::ChangeColor(256, -1, 511));
    assert_eq!(state.color, (0, 255, 255));
    state.process(Message::ChangeColor(i32::MIN, i32::MAX, -256));
    assert_eq!(state.color, (0, 255, 0));
    state.process(Message::ChangeColor(-255, 257, 1000));
    assert_eq!(state.color, (1, 1, 232));
}

#[test]
fn the_setters_change_their_own_field() {
    let mut state = State { quit: false, position: Point { x: 0, y: 0 }, color: (0, 0, 0) };
    state.change_color((4, 5, 6));
    assert_eq!(state.color, (4, 5, 6));
    state.move_position(Point { x: 2, y: 3 });
    assert_eq!(state.position, Point { x: 2, y: 3 });
    assert_eq!(state.quit, false);
    state.quit();
    assert_eq!(state.quit, true);
    assert_eq!(state.color, (4, 5, 6));
    assert_eq!(state.position, Point { x: 2, y: 3 });
}

#[test]
fn messages_are_written_out_line_by_line() {
    assert_eq!(Message::Quit.fmt(), "Quit");
    assert_eq!(Message::Move(Point { x: 1, y: 2 }).fmt(), "Move(1 2");
    assert_eq!(Message::Move(Point { x: 0, y: 255 }).fmt(), "Move(0 255");
    assert_eq!(Message::ChangeColor(255, 255, 0).fmt(), "ChangeColor(255, 255, 0");
    assert_eq!(Message::ChangeColor(-1, 10, -120).fmt(), "ChangeColor(-1, 10, -120");
    assert_eq!(Message::Write(String::from("hello")).fmt(), "Write(hello)");
    assert_eq!(Message::Echo(String::from("hello world")).fmt(), "Echo(hello world)");
    assert_eq!(Message::Echo(String::new()).fmt(), "Echo()");
}

#[test]
fn numbers_are_written_as_the_standard_library_writes_them() {
    let parts = [0, 1, 9, 10, 11, 99, 100, 101, 1000, 65535, 1_000_000, i32::MAX, -1, -9, -10, -100, -2_147_483_647, i32::MIN];
    for part in parts {
        assert_eq!(
            Message::ChangeColor(part, 0, part).fmt(),
            format!("ChangeColor({}, {}, {}", part, 0, part)
        );
    }
    for x in 0..=255u8 {
        assert_eq!(
            Message::Move(Point { x, y: 255 - x }).fmt(),
            format!("Move({} {}", x, 255 - x)
        );
    }
}

#[test]
fn exercise1_gives_the_three_sample_lines() {
    let lines = exercise1();
    assert_eq!(lines, vec![
        String::from("Quit"),
        String::from("Move(1 2"),
        String::from("ChangeColor(255, 255, 0"),
    ]);
}
