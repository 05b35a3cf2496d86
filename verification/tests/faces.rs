use cube_sphere::direction::Direction;
use cube_sphere::lattice::LatticePoint;
use cube_sphere::mesh::{add_face, generate};
use cube_sphere::vector::IntVec3;

#[test]
fn face_of_unit_resolution_is_walked_rows_first() {
    let mut vertices = Vec::new();
    let mut indices = Vec::new();
    add_face(&mut vertices, &mut indices, 1, Direction::Up);
    let expected: Vec<LatticePoint> = [
        (-1, -1),
        (0, -1),
        (1, -1),
        (-1, 0),
        (0, 0),
        (1, 0),
        (-1, 1),
        (0, 1),
        (1, 1),
    ]
    .iter()
    .map(|&(a, b)| LatticePoint { direction: Direction::Up, a, b })
    .collect();
    assert_eq!(vertices, expected);
}

#[test]
fn triangles_of_a_face_of_unit_resolution() {
    let mut vertices = Vec::new();
    let mut indices = Vec::new();
    add_face(&mut vertices, &mut indices, 1, Direction::Up);
    assert_eq!(
        indices,
        vec![0, 1, 4, 0, 4, 3, 1, 2, 5, 1, 5, 4, 3, 4, 7, 3, 7, 6, 4, 5, 8, 4, 8, 7]
    );
}

#[test]
fn a_second_face_is_laid_out_behind_the_first() {
    let mut vertices = Vec::new();
    let mut indices = Vec::new();
    add_face(&mut vertices, &mut indices, 1, Direction::Up);
    add_face(&mut vertices, &mut indices, 1, Direction::Left);
    assert_eq!(vertices.len(), 18);
    assert_eq!(indices.len(), 48);
    assert_eq!(
        &indices[24..],
        &[9, 10, 13, 9, 13, 12, 10, 11, 14, 10, 14, 13, 12, 13, 16, 12, 16, 15, 13, 14, 17, 13, 17, 16]
    );
    assert!(vertices[..9].iter().all(|v| v.direction == Direction::Up));
    assert!(vertices[9..].iter().all(|v| v.direction == Direction::Left));
    assert_eq!(vertices[9], LatticePoint { direction: Direction::Left, a: -1, b: -1 });
}

#[test]
fn a_face_of_resolution_zero_is_one_point() {
    let mut vertices = Vec::new();
    let mut indices = Vec::new();
    add_face(&mut vertices, &mut indices, 0, Direction::Back);
    assert_eq!(vertices, vec![LatticePoint { direction: Direction::Back, a: 0, b: 0 }]);
    assert!(indices.is_empty());
}

#[test]
fn what_the_mesh_held_before_is_kept() {
    let start = LatticePoint { direction: Direction::Forward, a: 7, b: -7 };
    let mut vertices = vec![start];
    let mut indices = vec![0, 0, 0];
    add_face(&mut vertices, &mut indices, 2, Direction::Down);
    assert_eq!(vertices[0], start);
    assert_eq!(&indices[..3], &[0, 0, 0]);
    assert_eq!(vertices.len(), 1 + 25);
    assert_eq!(indices.len(), 3 + 96);
    assert_eq!(&indices[3..9], &[1, 2, 7, 1, 7, 6]);
}

#[test]
fn generate_is_six_faces_in_the_fixed_order() {
    for resolution in 1u32..=4 {
        let mesh = generate(resolution).unwrap();
        let mut vertices = Vec::new();
        let mut indices = Vec::new();
        for direction in Direction::all() {
            add_face(&mut vertices, &mut indices, resolution, direction);
        }
        assert_eq!(mesh.vertices, vertices);
        assert_eq!(mesh.indices, indices);
    }
}

#[test]
fn vertices_of_each_face_stand_together() {
    for resolution in 1u32..=5 {
        let side = 2 * resolution as usize + 1;
        let per_face = side * side;
        let mesh = generate(resolution).unwrap();
        for (k, vertex) in mesh.vertices.iter().enumerate() {
            assert_eq!(vertex.direction.index(), k / per_face);
            assert_eq!(Direction::from_index(k / per_face), Some(vertex.direction));
            let place = k % per_face;
            assert_eq!(vertex.a, (place % side) as i64 - resolution as i64);
            assert_eq!(vertex.b, (place / side) as i64 - resolution as i64);
        }
    }
}

#[test]
fn position_on_each_face() {
    let at = |direction| LatticePoint { direction, a: 1, b: -2 }.position(3);
    assert_eq!(at(Direction::Up), IntVec3::new(1, 3, 2));
    assert_eq!(at(Direction::Down), IntVec3::new(-1, -3, 2));
    assert_eq!(at(Direction::Left), IntVec3::new(-3, 2, -1));
    assert_eq!(at(Direction::Right), IntVec3::new(3, 2, 1));
    assert_eq!(at(Direction::Back), IntVec3::new(2, -1, -3));
    assert_eq!(at(Direction::Forward), IntVec3::new(2, 1, 3));
}

#[test]
fn positions_lie_on_the_cube() {
    let resolution = 3u32;
    let n = resolution as i64;
    let mesh = generate(resolution).unwrap();
    for vertex in &mesh.vertices {
        let p = vertex.position(resolution);
        let normal = vertex.direction.normal_vector();
        assert_eq!(p.dot(&normal), n);
        assert_eq!(p.x.abs().max(p.y.abs()).max(p.z.abs()), n);
        let squared = p.dot(&p);
        assert!(n * n <= squared && squared <= 3 * n * n);
    }
}

#[test]
fn centre_of_each_face_is_its_normal_scaled() {
    let resolution = 4u32;
    for direction in Direction::all() {
        let centre = LatticePoint { direction, a: 0, b: 0 };
        assert_eq!(centre.position(resolution), direction.normal_vector().scaled(4));
    }
}
