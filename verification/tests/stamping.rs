use game_of_life::{Coord, OutOfBounds, Spaceship, World};

fn coords(pairs: &[(usize, usize)]) -> Vec<Coord> {
    pairs.iter().map(|&(x, y)| Coord { x, y }).collect()
}

fn glider(x: usize, y: usize) -> Spaceship {
    Spaceship {
        name: String::from("glider"),
        coords: coords(&[(1, 0), (2, 1), (0, 2), (1, 2), (2, 2)]),
        starting_coord: Some(Coord { x, y }),
    }
}

fn live_cells(world: &World) -> Vec<(usize, usize)> {
    let mut cells: Vec<(usize, usize)> = Vec::new();
    let mut line: usize = 0;
    while line < world.height() {
        let mut column: usize = 0;
        while column < world.width() {
            if world.get_cel_value(column, line) {
                cells.push((column, line));
            }
            column += 1;
        }
        line += 1;
    }
    cells
}

#[test]
fn draw_spaceship_toggles_anchor_plus_offset() {
    let mut world = World::new(6, 5);
    world.draw_spaceship(&glider(2, 1));
    assert_eq!(live_cells(&world), vec![(3, 1), (4, 2), (2, 3), (3, 3), (4, 3)]);
    assert!(world.spaceships().is_empty());
}

#[test]
fn draw_spaceship_without_anchor_starts_at_the_origin() {
    let mut world = World::new(4, 4);
    let ship = Spaceship {
        name: String::from("corner"),
        coords: coords(&[(0, 0), (3, 2)]),
        starting_coord: None,
    };
    assert_eq!(ship.anchor(), Coord { x: 0, y: 0 });
    world.draw_spaceship(&ship);
    assert_eq!(live_cells(&world), vec![(0, 0), (3, 2)]);
}

#[test]
fn draw_spaceship_twice_restores_the_grid() {
    let mut world = World::new(7, 7);
    world.set_cel_value(3, 1);
    world.set_cel_value(6, 6);
    let before = live_cells(&world);
    let text = world.display();
    let ship = glider(2, 1);
    world.draw_spaceship(&ship);
    assert_ne!(live_cells(&world), before);
    // (3, 1) was alive and is named by the glider, so stamping kills it.
    assert!(!world.get_cel_value(3, 1));
    world.draw_spaceship(&ship);
    assert_eq!(live_cells(&world), before);
    assert_eq!(world.display(), text);
}

#[test]
fn draw_spaceship_flips_a_repeated_offset_once_per_mention() {
    let mut world = World::new(3, 3);
    let twice = Spaceship {
        name: String::from("twice"),
        coords: coords(&[(1, 1), (0, 0), (1, 1)]),
        starting_coord: Some(Coord { x: 1, y: 1 }),
    };
    world.draw_spaceship(&twice);
    assert_eq!(live_cells(&world), vec![(1, 1)]);
    let thrice = Spaceship {
        name: String::from("thrice"),
        coords: coords(&[(0, 0), (0, 0), (0, 0)]),
        starting_coord: Some(Coord { x: 0, y: 2 }),
    };
    world.draw_spaceship(&thrice);
    assert_eq!(live_cells(&world), vec![(1, 1), (0, 2)]);
}

#[test]
fn draw_spaceship_with_no_offsets_changes_nothing() {
    let mut world = World::new(2, 2);
    world.set_cel_value(1, 0);
    let nothing = Spaceship {
        name: String::from("nothing"),
        coords: Vec::new(),
        starting_coord: Some(Coord { x: 9, y: 9 }),
    };
    assert_eq!(world.check_spaceship(&nothing), Ok(()));
    world.draw_spaceship(&nothing);
    assert_eq!(live_cells(&world), vec![(1, 0)]);
}

#[test]
fn two_spaceships_compose() {
    let mut world = World::new(10, 10);
    assert_eq!(world.add_spaceship(glider(0, 0)), Ok(()));
    assert_eq!(world.add_spaceship(glider(5, 5)), Ok(()));
    assert_eq!(
        live_cells(&world),
        vec![(1, 0), (2, 1), (0, 2), (1, 2), (2, 2), (6, 5), (7, 6), (5, 7), (6, 7), (7, 7)]
    );
}

#[test]
fn add_spaceship_draws_and_records() {
    let mut world = World::new(6, 5);
    assert_eq!(world.add_spaceship(glider(2, 1)), Ok(()));
    assert_eq!(live_cells(&world), vec![(3, 1), (4, 2), (2, 3), (3, 3), (4, 3)]);
    assert_eq!(world.spaceships().len(), 1);
    assert_eq!(world.spaceships()[0], glider(2, 1));
    assert_eq!(world.add_spaceship(glider(0, 0)), Ok(()));
    assert_eq!(world.spaceships().len(), 2);
    assert_eq!(world.spaceships()[0], glider(2, 1));
    assert_eq!(world.spaceships()[1], glider(0, 0));
}

#[test]
fn editing_and_advancing_keep_the_record() {
    let mut world = World::new(6, 6);
    assert_eq!(world.add_spaceship(glider(1, 1)), Ok(()));
    world.set_cel_value(0, 0);
    world.draw_spaceship(&glider(3, 3));
    world.goto_next_gen();
    assert_eq!(world.spaceships().len(), 1);
    assert_eq!(world.spaceships()[0], glider(1, 1));
}

#[test]
fn add_spaceship_refuses_what_does_not_fit() {
    let mut world = World::new(6, 5);
    world.set_cel_value(5, 0);
    assert_eq!(world.add_spaceship(glider(4, 0)), Err(OutOfBounds { index: 1 }));
    assert_eq!(live_cells(&world), vec![(5, 0)]);
    assert!(world.spaceships().is_empty());
    assert_eq!(world.add_spaceship(glider(3, 3)), Err(OutOfBounds { index: 2 }));
    assert_eq!(live_cells(&world), vec![(5, 0)]);
    assert!(world.spaceships().is_empty());
    assert_eq!(world.add_spaceship(glider(3, 2)), Ok(()));
    assert_eq!(world.spaceships().len(), 1);
}

#[test]
fn add_spaceship_twice_restores_the_grid() {
    let mut world = World::new(5, 5);
    world.set_cel_value(2, 2);
    assert_eq!(world.add_spaceship(glider(1, 1)), Ok(()));
    assert_eq!(world.add_spaceship(glider(1, 1)), Ok(()));
    assert_eq!(live_cells(&world), vec![(2, 2)]);
    assert_eq!(world.spaceships().len(), 2);
}

#[test]
fn check_spaceship_accepts_what_fits() {
    let world = World::new(6, 5);
    assert_eq!(world.check_spaceship(&glider(0, 0)), Ok(()));
    assert_eq!(world.check_spaceship(&glider(3, 2)), Ok(()));
}

#[test]
fn check_spaceship_names_the_first_offset_outside() {
    let world = World::new(6, 5);
    // column 4 + 2 = 6 is past the right edge: offset 1 is (2, 1)
    assert_eq!(world.check_spaceship(&glider(4, 0)), Err(OutOfBounds { index: 1 }));
    // line 3 + 2 = 5 is past the bottom edge: offset 2 is (0, 2)
    assert_eq!(world.check_spaceship(&glider(0, 3)), Err(OutOfBounds { index: 2 }));
    // the anchor itself is outside
    assert_eq!(world.check_spaceship(&glider(6, 0)), Err(OutOfBounds { index: 0 }));
    assert_eq!(world.check_spaceship(&glider(0, 5)), Err(OutOfBounds { index: 0 }));
}

#[test]
fn check_spaceship_does_not_wrap_large_coordinates() {
    let world = World::new(4, 4);
    let far = Spaceship {
        name: String::from("far"),
        coords: coords(&[(0, 0), (usize::MAX, 0)]),
        starting_coord: Some(Coord { x: 1, y: 1 }),
    };
    assert_eq!(world.check_spaceship(&far), Err(OutOfBounds { index: 1 }));
    let far_anchor = Spaceship {
        name: String::from("far anchor"),
        coords: coords(&[(1, 1)]),
        starting_coord: Some(Coord { x: 0, y: usize::MAX }),
    };
    assert_eq!(world.check_spaceship(&far_anchor), Err(OutOfBounds { index: 0 }));
}

#[test]
fn check_spaceship_on_an_empty_world() {
    let world = World::new(0, 0);
    assert_eq!(world.check_spaceship(&glider(0, 0)), Err(OutOfBounds { index: 0 }));
}

#[test]
fn check_spaceship_leaves_the_world_alone() {
    let world = World::new(6, 5);
    assert!(world.check_spaceship(&glider(4, 4)).is_err());
    assert_eq!(live_cells(&world), vec![]);
}

#[test]
fn spaceship_clone_is_equal() {
    let ship = glider(2, 3);
    let copy = ship.clone();
    assert_eq!(copy, ship);
    assert_eq!(copy.name, "glider");
    assert_eq!(copy.coords.len(), 5);
    assert_eq!(copy.starting_coord, Some(Coord { x: 2, y: 3 }));
    assert_eq!(copy.anchor(), Coord { x: 2, y: 3 });
}
