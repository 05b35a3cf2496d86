use cube_sphere::direction::Direction;
use cube_sphere::mesh::{generate, MeshLayout};

fn sphere_point(mesh: &MeshLayout, resolution: u32, radius: f64, index: u32) -> [f64; 3] {
    let p = mesh.vertices[index as usize].position(resolution);
    let v = [p.x as f64, p.y as f64, p.z as f64];
    let length = (v[0] * v[0] + v[1] * v[1] + v[2] * v[2]).sqrt();
    [v[0] / length * radius, v[1] / length * radius, v[2] / length * radius]
}

fn sub(a: [f64; 3], b: [f64; 3]) -> [f64; 3] {
    [a[0] - b[0], a[1] - b[1], a[2] - b[2]]
}

fn cross(a: [f64; 3], b: [f64; 3]) -> [f64; 3] {
    [a[1] * b[2] - a[2] * b[1], a[2] * b[0] - a[0] * b[2], a[0] * b[1] - a[1] * b[0]]
}

fn dot(a: [f64; 3], b: [f64; 3]) -> f64 {
    a[0] * b[0] + a[1] * b[1] + a[2] * b[2]
}

#[test]
fn every_index_names_a_vertex() {
    for resolution in 1u32..=6 {
        let mesh = generate(resolution).unwrap();
        assert_eq!(mesh.indices.len() % 3, 0);
        assert!(mesh.indices.iter().all(|&i| (i as usize) < mesh.vertices.len()));
    }
}

#[test]
fn no_triangle_crosses_an_edge_of_the_cube() {
    for resolution in 1u32..=5 {
        let mesh = generate(resolution).unwrap();
        let side = 2 * resolution as usize + 1;
        let per_face = side * side;
        let corners_per_face = mesh.indices.len() / 6;
        for (t, triangle) in mesh.indices.chunks(3).enumerate() {
            let face = 3 * t / corners_per_face;
            for &corner in triangle {
                assert_eq!(corner as usize / per_face, face);
            }
        }
    }
}

#[test]
fn two_calls_give_the_same_mesh() {
    for resolution in [1u32, 2, 7, 33] {
        assert_eq!(generate(resolution), generate(resolution));
    }
}

#[test]
fn triangles_are_wound_outward_on_the_cube() {
    for resolution in 1u32..=5 {
        let n = resolution as i64;
        let mesh = generate(resolution).unwrap();
        for triangle in mesh.indices.chunks(3) {
            let corner = |i: usize| mesh.vertices[triangle[i] as usize];
            let u = corner(0).position(resolution);
            let v = corner(1).position(resolution);
            let w = corner(2).position(resolution);
            let normal = v.minus(&u).cross(&w.minus(&u));
            assert_eq!(normal, corner(0).direction.normal_vector());
            assert_eq!(corner(1).direction, corner(0).direction);
            assert_eq!(corner(2).direction, corner(0).direction);
            assert_eq!(normal.dot(&u), n);
            assert_eq!(normal.dot(&v), n);
            assert_eq!(normal.dot(&w), n);
            assert_eq!(u.dot(&v.cross(&w)), n);
        }
    }
}

#[test]
fn triangles_are_wound_outward_on_the_sphere() {
    let resolution = 4u32;
    let radius = 5.0;
    let mesh = generate(resolution).unwrap();
    for triangle in mesh.indices.chunks(3) {
        let u = sphere_point(&mesh, resolution, radius, triangle[0]);
        let v = sphere_point(&mesh, resolution, radius, triangle[1]);
        let w = sphere_point(&mesh, resolution, radius, triangle[2]);
        let normal = cross(sub(v, u), sub(w, u));
        assert!(dot(normal, u) > 0.0);
        assert!(dot(normal, v) > 0.0);
        assert!(dot(normal, w) > 0.0);
    }
}

#[test]
fn sphere_points_lie_at_the_radius() {
    let resolution = 5u32;
    let radius = 2.5;
    let mesh = generate(resolution).unwrap();
    for index in 0..mesh.vertices.len() as u32 {
        let p = sphere_point(&mesh, resolution, radius, index);
        assert!((dot(p, p).sqrt() - radius).abs() < 1e-12);
    }
}

#[test]
fn every_cell_is_covered_by_two_triangles_that_share_its_diagonal() {
    let resolution = 2u32;
    let mesh = generate(resolution).unwrap();
    let side = 5u32;
    for (c, cell) in mesh.indices.chunks(6).enumerate() {
        let face = (c / 16) as u32;
        let row = (c % 16 / 4) as u32;
        let column = (c % 4) as u32;
        let first = face * 25 + row * side + column;
        assert_eq!(cell, &[first, first + 1, first + side + 1, first, first + side + 1, first + side]);
        assert_eq!(mesh.vertices[first as usize].direction, Direction::from_index(face as usize).unwrap());
    }
}
