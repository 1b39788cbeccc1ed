use tokio::sync::broadcast;
use unknown_yet::sprites::food::{Egg, Food};
use unknown_yet::sprites::snake::{Direction, Segment, Snake};

fn body(snake: &Snake) -> Vec<(u16, u16)> {
    snake.segments().iter().map(|s| (s.x, s.y)).collect()
}

fn a_snake(length: u16, x: u16, y: u16) -> Snake {
    let (tx, _rx) = broadcast::channel::<String>(16);
    Snake::new(length, x, y, false, tx)
}

fn drain(rx: &mut broadcast::Receiver<String>) -> Vec<String> {
    let mut lines = Vec::new();
    while let Ok(line) = rx.try_recv() {
        lines.push(line);
    }
    lines
}

#[test]
fn new_lays_segments_in_a_row_heading_right() {
    let snake = a_snake(4, 8, 4);
    assert_eq!(body(&snake), vec![(8, 4), (9, 4), (10, 4), (11, 4)]);
    assert_eq!(snake.direction(), Direction::Right);
    assert!(!snake.grow_enabled());
}

#[test]
fn new_of_one_segment_up_to_the_last_column() {
    let snake = a_snake(1, u16::MAX, 0);
    assert_eq!(body(&snake), vec![(u16::MAX, 0)]);
}

#[test]
fn new_keeps_the_growth_flag() {
    let (tx, _rx) = broadcast::channel::<String>(16);
    let snake = Snake::new(8, 8, 4, true, tx);
    assert!(snake.grow_enabled());
    assert_eq!(snake.segments().len(), 8);
}

#[test]
fn new_announces_the_layout() {
    let (tx, mut rx) = broadcast::channel::<String>(16);
    let snake = Snake::new(4, 8, 4, false, tx);
    assert_eq!(
        drain(&mut rx),
        vec!["(unknown-yet) info: initializing snake (length: 4, start_x: 8, start_y: 4)"
            .to_string()]
    );
    assert_eq!(snake.dropped(), 0);
}

#[test]
fn forward_shifts_every_segment_one_cell() {
    let mut snake = a_snake(4, 8, 4);
    let mut food = Food::new(0, 160, 40);
    snake.forward(&mut food, 160, 40);
    assert_eq!(body(&snake), vec![(9, 4), (10, 4), (11, 4), (12, 4)]);
    assert_eq!(snake.direction(), Direction::Right);
}

#[test]
fn forward_past_an_egg_elsewhere_leaves_the_food_alone() {
    let mut snake = a_snake(4, 8, 4);
    let mut food = Food::new(2, 160, 40);
    food.place(0, Egg { x: 12, y: 5 });
    food.place(1, Egg { x: 13, y: 4 });
    snake.forward(&mut food, 160, 40);
    assert_eq!(food.eggs(), &vec![Egg { x: 12, y: 5 }, Egg { x: 13, y: 4 }]);
}

#[test]
fn forward_onto_an_egg_lays_it_again_and_announces_both() {
    let mut moved = false;
    for _ in 0..64 {
        let (tx, mut rx) = broadcast::channel::<String>(16);
        let mut snake = Snake::new(4, 8, 4, false, tx);
        drain(&mut rx);
        let mut food = Food::new(1, 160, 40);
        food.place(0, Egg { x: 12, y: 4 });
        snake.forward(&mut food, 160, 40);
        assert_eq!(body(&snake), vec![(9, 4), (10, 4), (11, 4), (12, 4)]);
        assert_eq!(food.eggs().len(), 1);
        assert!(food.eggs()[0].x < 160 && food.eggs()[0].y < 40);
        assert_eq!(
            drain(&mut rx),
            vec![
                "(unknown-yet) info: snake.grow (x: 12, y: 4)".to_string(),
                "(unknown-yet) info: snake.forward (x: 12, y: 4)".to_string(),
            ]
        );
        if food.eggs()[0] != (Egg { x: 12, y: 4 }) {
            moved = true;
        }
    }
    assert!(moved);
}

#[test]
fn forward_onto_an_egg_moves_no_other_egg() {
    for _ in 0..32 {
        let mut snake = a_snake(4, 8, 4);
        let mut food = Food::new(4, 160, 40);
        food.place(0, Egg { x: 1, y: 1 });
        food.place(1, Egg { x: 12, y: 4 });
        food.place(2, Egg { x: 12, y: 4 });
        food.place(3, Egg { x: 159, y: 39 });
        snake.forward(&mut food, 160, 40);
        let eggs = food.eggs();
        assert_eq!(eggs.len(), 4);
        assert_eq!(eggs[0], Egg { x: 1, y: 1 });
        assert!(eggs[1].x < 160 && eggs[1].y < 40);
        assert_eq!(eggs[2], Egg { x: 12, y: 4 });
        assert_eq!(eggs[3], Egg { x: 159, y: 39 });
    }
}

#[test]
fn forward_without_an_egg_announces_the_step_only() {
    let (tx, mut rx) = broadcast::channel::<String>(16);
    let mut snake = Snake::new(4, 8, 4, false, tx);
    drain(&mut rx);
    let mut food = Food::new(0, 160, 40);
    snake.forward(&mut food, 160, 40);
    assert_eq!(
        drain(&mut rx),
        vec!["(unknown-yet) info: snake.forward (x: 12, y: 4)".to_string()]
    );
}

#[test]
fn forward_keeps_the_length_whatever_it_eats() {
    for length in [1u16, 2, 8, 16] {
        let (tx, _rx) = broadcast::channel::<String>(16);
        let mut snake = Snake::new(length, 8, 4, true, tx);
        let mut food = Food::new(255, 160, 40);
        for step in 0..400 {
            if step % 50 == 49 {
                snake.turn(if step % 100 == 49 { Direction::Down } else { Direction::Right });
            }
            snake.forward(&mut food, 160, 40);
            assert_eq!(snake.segments().len(), length as usize);
            assert_eq!(food.eggs().len(), 255);
        }
    }
}

#[test]
fn forward_wraps_right_to_column_zero() {
    let mut snake = a_snake(1, 159, 7);
    let mut food = Food::new(0, 160, 40);
    snake.forward(&mut food, 160, 40);
    assert_eq!(body(&snake), vec![(0, 7)]);
}

#[test]
fn forward_wraps_left_to_the_last_column() {
    let mut snake = a_snake(1, 0, 7);
    let mut food = Food::new(0, 160, 40);
    snake.turn(Direction::Up);
    snake.turn(Direction::Left);
    snake.forward(&mut food, 160, 40);
    assert_eq!(body(&snake), vec![(159, 7)]);
}

#[test]
fn forward_wraps_up_to_the_last_row() {
    let mut snake = a_snake(1, 5, 0);
    let mut food = Food::new(0, 160, 40);
    snake.turn(Direction::Up);
    snake.forward(&mut food, 160, 40);
    assert_eq!(body(&snake), vec![(5, 39)]);
}

#[test]
fn forward_wraps_down_to_row_zero() {
    let mut snake = a_snake(1, 5, 39);
    let mut food = Food::new(0, 160, 40);
    snake.turn(Direction::Down);
    snake.forward(&mut food, 160, 40);
    assert_eq!(body(&snake), vec![(5, 0)]);
}

#[test]
fn forward_inside_the_grid_moves_one_cell() {
    let mut food = Food::new(0, 160, 40);
    let mut snake = a_snake(1, 5, 5);
    snake.turn(Direction::Up);
    snake.forward(&mut food, 160, 40);
    assert_eq!(body(&snake), vec![(5, 4)]);
    snake.turn(Direction::Left);
    snake.forward(&mut food, 160, 40);
    assert_eq!(body(&snake), vec![(4, 4)]);
    snake.turn(Direction::Down);
    snake.forward(&mut food, 160, 40);
    assert_eq!(body(&snake), vec![(4, 5)]);
    snake.turn(Direction::Right);
    snake.forward(&mut food, 160, 40);
    assert_eq!(body(&snake), vec![(5, 5)]);
}

#[test]
fn forward_on_a_grid_of_one_cell_stays_put() {
    let mut food = Food::new(0, 1, 1);
    let mut snake = a_snake(1, 0, 0);
    snake.forward(&mut food, 1, 1);
    assert_eq!(body(&snake), vec![(0, 0)]);
    snake.turn(Direction::Up);
    snake.forward(&mut food, 1, 1);
    assert_eq!(body(&snake), vec![(0, 0)]);
}

#[test]
fn forward_from_beyond_the_right_edge_lands_on_column_zero() {
    let mut food = Food::new(0, 160, 40);
    let mut snake = a_snake(1, 200, 3);
    snake.forward(&mut food, 160, 40);
    assert_eq!(body(&snake), vec![(0, 3)]);
}

fn headed(heading: Direction) -> Snake {
    let mut snake = a_snake(1, 5, 5);
    match heading {
        Direction::Right => {}
        Direction::Up => snake.turn(Direction::Up),
        Direction::Down => snake.turn(Direction::Down),
        Direction::Left => {
            snake.turn(Direction::Up);
            snake.turn(Direction::Left);
        }
    }
    assert_eq!(snake.direction(), heading);
    snake
}

#[test]
fn turn_to_the_opposite_heading_is_ignored() {
    let pairs = [
        (Direction::Right, Direction::Left),
        (Direction::Left, Direction::Right),
        (Direction::Up, Direction::Down),
        (Direction::Down, Direction::Up),
    ];
    for (heading, opposite) in pairs {
        assert_eq!(heading.opposite(), opposite);
        let mut snake = headed(heading);
        snake.turn(opposite);
        assert_eq!(snake.direction(), heading);
    }
}

#[test]
fn turn_to_the_same_heading_is_ignored() {
    for heading in [Direction::Right, Direction::Left, Direction::Up, Direction::Down] {
        let mut snake = headed(heading);
        snake.turn(heading);
        assert_eq!(snake.direction(), heading);
    }
}

#[test]
fn turn_aside_is_taken() {
    let all = [Direction::Right, Direction::Left, Direction::Up, Direction::Down];
    for heading in all {
        for wanted in all {
            if wanted != heading && wanted != heading.opposite() {
                let mut snake = headed(heading);
                snake.turn(wanted);
                assert_eq!(snake.direction(), wanted);
            }
        }
    }
}

#[test]
fn turn_announces_only_a_turn_that_is_taken() {
    let (tx, mut rx) = broadcast::channel::<String>(16);
    let mut snake = Snake::new(4, 8, 4, false, tx);
    drain(&mut rx);
    snake.turn(Direction::Left);
    snake.turn(Direction::Right);
    assert_eq!(drain(&mut rx), Vec::<String>::new());
    snake.turn(Direction::Down);
    assert_eq!(
        drain(&mut rx),
        vec!["(unknown-yet) info: snake.turn.direction::Down".to_string()]
    );
    assert_eq!(body(&snake), vec![(8, 4), (9, 4), (10, 4), (11, 4)]);
}

#[test]
fn grow_adds_a_head_and_keeps_the_tail() {
    let mut snake = a_snake(2, 8, 4);
    snake._grow(10, 4);
    assert_eq!(body(&snake), vec![(8, 4), (9, 4), (10, 4)]);
    assert_eq!(snake.direction(), Direction::Right);
}

#[test]
fn events_without_a_receiver_are_counted_as_dropped() {
    let (tx, rx) = broadcast::channel::<String>(16);
    drop(rx);
    let mut snake = Snake::new(4, 8, 4, false, tx);
    assert_eq!(snake.dropped(), 1);
    let mut food = Food::new(0, 160, 40);
    snake.forward(&mut food, 160, 40);
    assert_eq!(snake.dropped(), 2);
    assert_eq!(body(&snake), vec![(9, 4), (10, 4), (11, 4), (12, 4)]);
}

#[test]
fn segment_holds_its_cell() {
    let segment = Segment { x: 3, y: 9 };
    let copy = segment;
    assert_eq!(copy, Segment { x: 3, y: 9 });
}
