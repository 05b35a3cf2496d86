use cube_sphere::basis::FaceBasis;
use cube_sphere::direction::{Direction, FACE_COUNT};
use cube_sphere::vector::IntVec3;

#[test]
fn directions_come_in_their_fixed_order() {
    assert_eq!(FACE_COUNT, 6);
    assert_eq!(
        Direction::all(),
        [
            Direction::Up,
            Direction::Down,
            Direction::Left,
            Direction::Right,
            Direction::Back,
            Direction::Forward,
        ]
    );
}

#[test]
fn index_and_from_index_are_inverse() {
    for (place, direction) in Direction::all().iter().enumerate() {
        assert_eq!(direction.index(), place);
        assert_eq!(Direction::from_index(place), Some(*direction));
    }
    assert_eq!(Direction::from_index(6), None);
    assert_eq!(Direction::from_index(usize::MAX), None);
}

#[test]
fn normal_vectors_are_the_six_axis_directions() {
    assert_eq!(Direction::Up.normal_vector(), IntVec3::new(0, 1, 0));
    assert_eq!(Direction::Down.normal_vector(), IntVec3::new(0, -1, 0));
    assert_eq!(Direction::Left.normal_vector(), IntVec3::new(-1, 0, 0));
    assert_eq!(Direction::Right.normal_vector(), IntVec3::new(1, 0, 0));
    assert_eq!(Direction::Back.normal_vector(), IntVec3::new(0, 0, -1));
    assert_eq!(Direction::Forward.normal_vector(), IntVec3::new(0, 0, 1));
}

#[test]
fn basis_of_up() {
    let basis = FaceBasis::of(Direction::Up);
    assert_eq!(basis.local_up, IntVec3::new(0, 1, 0));
    assert_eq!(basis.axis_a, IntVec3::new(1, 0, 0));
    assert_eq!(basis.axis_b, IntVec3::new(0, 0, -1));
}

#[test]
fn basis_of_every_direction() {
    let expected = [
        (Direction::Up, (1, 0, 0), (0, 0, -1)),
        (Direction::Down, (-1, 0, 0), (0, 0, -1)),
        (Direction::Left, (0, 0, -1), (0, -1, 0)),
        (Direction::Right, (0, 0, 1), (0, -1, 0)),
        (Direction::Back, (0, -1, 0), (-1, 0, 0)),
        (Direction::Forward, (0, 1, 0), (-1, 0, 0)),
    ];
    for (direction, a, b) in expected {
        let basis = FaceBasis::of(direction);
        assert_eq!(basis.local_up, direction.normal_vector());
        assert_eq!(basis.axis_a, IntVec3::new(a.0, a.1, a.2));
        assert_eq!(basis.axis_b, IntVec3::new(b.0, b.1, b.2));
    }
}

#[test]
fn basis_is_orthonormal_and_right_handed() {
    for direction in Direction::all() {
        let basis = FaceBasis::of(direction);
        assert_eq!(basis.local_up.dot(&basis.local_up), 1);
        assert_eq!(basis.axis_a.dot(&basis.axis_a), 1);
        assert_eq!(basis.axis_b.dot(&basis.axis_b), 1);
        assert_eq!(basis.local_up.dot(&basis.axis_a), 0);
        assert_eq!(basis.local_up.dot(&basis.axis_b), 0);
        assert_eq!(basis.axis_a.dot(&basis.axis_b), 0);
        assert_eq!(basis.axis_a.cross(&basis.axis_b), basis.local_up);
    }
}

#[test]
fn basis_of_a_vector_that_is_no_unit_vector() {
    let basis = FaceBasis::new(IntVec3::new(1, 2, 3));
    assert_eq!(basis.local_up, IntVec3::new(1, 2, 3));
    assert_eq!(basis.axis_a, IntVec3::new(2, 3, 1));
    assert_eq!(basis.axis_b, IntVec3::new(2 * 1 - 3 * 3, 3 * 2 - 1 * 1, 1 * 3 - 2 * 2));
}

#[test]
fn names_of_the_directions() {
    let names: Vec<&str> = Direction::all().iter().map(|d| d.name()).collect();
    assert_eq!(names, vec!["Up", "Down", "Left", "Right", "Back", "Forward"]);
    for direction in Direction::all() {
        assert_eq!(format!("{:?}", direction), direction.name());
    }
}
