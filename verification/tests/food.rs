use unknown_yet::sprites::food::{Egg, Food};

#[test]
fn new_lays_the_eggs_on_the_grid() {
    let food = Food::new(1000, 3, 2);
    assert_eq!(food.eggs().len(), 1000);
    assert_eq!(food.width(), 3);
    assert_eq!(food.height(), 2);
    for egg in food.eggs() {
        assert!(egg.x < 3 && egg.y < 2);
    }
}

#[test]
fn new_on_a_grid_of_one_cell_lays_every_egg_there() {
    let food = Food::new(5, 1, 1);
    assert_eq!(food.eggs(), &vec![Egg { x: 0, y: 0 }; 5]);
}

#[test]
fn new_with_no_eggs_needs_no_grid() {
    let food = Food::new(0, 0, 0);
    assert!(food.eggs().is_empty());
}

#[test]
fn new_uses_the_whole_grid() {
    let food = Food::new(2000, 2, 2);
    for x in 0..2u16 {
        for y in 0..2u16 {
            assert!(food.eggs().contains(&Egg { x, y }));
        }
    }
}

#[test]
fn place_changes_one_egg() {
    let mut food = Food::new(3, 1, 1);
    food.place(1, Egg { x: 7, y: 9 });
    assert_eq!(
        food.eggs(),
        &vec![Egg { x: 0, y: 0 }, Egg { x: 7, y: 9 }, Egg { x: 0, y: 0 }]
    );
}

#[test]
fn replace_lays_one_egg_again_on_the_grid() {
    for _ in 0..200 {
        let mut food = Food::new(3, 4, 5);
        food.place(0, Egg { x: 100, y: 100 });
        food.place(1, Egg { x: 101, y: 101 });
        food.place(2, Egg { x: 102, y: 102 });
        food._replace(1);
        let eggs = food.eggs();
        assert_eq!(eggs.len(), 3);
        assert_eq!(eggs[0], Egg { x: 100, y: 100 });
        assert!(eggs[1].x < 4 && eggs[1].y < 5);
        assert_eq!(eggs[2], Egg { x: 102, y: 102 });
    }
}

#[test]
fn position_finds_the_first_egg_on_a_cell() {
    let mut food = Food::new(4, 1, 1);
    food.place(1, Egg { x: 2, y: 3 });
    food.place(2, Egg { x: 2, y: 3 });
    food.place(3, Egg { x: 3, y: 2 });
    assert_eq!(food.position(0, 0), Some(0));
    assert_eq!(food.position(2, 3), Some(1));
    assert_eq!(food.position(3, 2), Some(3));
    assert_eq!(food.position(3, 3), None);
    assert_eq!(Food::new(0, 1, 1).position(0, 0), None);
}
