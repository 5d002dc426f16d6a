use floorplan_mesh::{
    process_shapes, select_polygons, Elevations, Floorplan2DMesh, Floorplan3DMesh, Point, PointZ,
};

fn hexagon() -> Vec<Point<f32>> {
    vec![
        Point::new(0.0, 0.0),
        Point::new(0.0, 5.0),
        Point::new(5.0, 5.0),
        Point::new(5.0, 4.0),
        Point::new(1.0, 4.0),
        Point::new(1.0, 0.0),
    ]
}

fn standard_levels() -> Elevations<f32> {
    Elevations::new(0.0, 10.0)
}

#[test]
fn test_create_2d_mesh() {
    let points = vec![
        Point::new(0.0, 0.0),
        Point::new(0.0, 5.0),
        Point::new(5.0, 5.0),
        Point::new(5.0, 4.0),
        Point::new(1.0, 4.0),
        Point::new(1.0, 0.0),
    ];

    assert_eq!(
        Floorplan2DMesh::from_points(vec![
            Point::new(0.0, 0.0),
            Point::new(0.0, 5.0),
            Point::new(5.0, 5.0),
            Point::new(5.0, 4.0),
            Point::new(1.0, 4.0),
            Point::new(1.0, 0.0),
        ]),
        Floorplan2DMesh {
            vertices: points,
            faces: vec![vec![1, 2, 3, 4, 5, 6],],
        },
    );
}

#[test]
fn test_meshing_polygon() {
    let levels = standard_levels();
    assert_eq!(
        Floorplan3DMesh::extrude(
            vec![
                Point::new(0.0, 0.0),
                Point::new(0.0, 5.0),
                Point::new(5.0, 5.0),
                Point::new(5.0, 4.0),
                Point::new(1.0, 4.0),
                Point::new(1.0, 0.0),
            ],
            &levels
        ),
        Floorplan3DMesh {
            vertices: vec![
                PointZ::roof(0.0, 0.0, &levels),
                PointZ::roof(0.0, 5.0, &levels),
                PointZ::roof(5.0, 5.0, &levels),
                PointZ::roof(5.0, 4.0, &levels),
                PointZ::roof(1.0, 4.0, &levels),
                PointZ::roof(1.0, 0.0, &levels),
                PointZ::floor(0.0, 0.0, &levels),
                PointZ::floor(0.0, 5.0, &levels),
                PointZ::floor(5.0, 5.0, &levels),
                PointZ::floor(5.0, 4.0, &levels),
                PointZ::floor(1.0, 4.0, &levels),
                PointZ::floor(1.0, 0.0, &levels),
            ],
            faces: vec![
                vec![1, 2, 3, 4, 5, 6],
                vec![1, 2, 8, 7],
                vec![2, 3, 9, 8],
                vec![3, 4, 10, 9],
                vec![4, 5, 11, 10],
                vec![5, 6, 12, 11],
                vec![6, 1, 7, 12],
                vec![7, 8, 9, 10, 11, 12],
            ],
        }
    );
}

#[test]
fn roof_and_floor_points_carry_their_elevations() {
    let levels = standard_levels();
    assert_eq!(PointZ::roof(1.5, 2.5, &levels), PointZ::new(1.5, 2.5, 10.0));
    assert_eq!(PointZ::floor(1.5, 2.5, &levels), PointZ::new(1.5, 2.5, 0.0));
}

#[test]
fn hexagon_prism_vertices_repeat_the_outline_twice() {
    let mesh = Floorplan3DMesh::extrude(hexagon(), &standard_levels());
    let outline = hexagon();
    assert_eq!(mesh.vertices.len(), 12);
    for (i, p) in outline.iter().enumerate() {
        assert_eq!(mesh.vertices[i], PointZ::new(p.x, p.y, 10.0));
        assert_eq!(mesh.vertices[6 + i], PointZ::new(p.x, p.y, 0.0));
    }
}

#[test]
fn extrusion_uses_the_given_elevations() {
    let levels = Elevations::new(-3.0f32, 2.5f32);
    let mesh = Floorplan3DMesh::extrude(vec![Point::new(1.0, 2.0), Point::new(3.0, 4.0), Point::new(5.0, 6.0)], &levels);
    assert_eq!(
        mesh.vertices,
        vec![
            PointZ::new(1.0, 2.0, 2.5),
            PointZ::new(3.0, 4.0, 2.5),
            PointZ::new(5.0, 6.0, 2.5),
            PointZ::new(1.0, 2.0, -3.0),
            PointZ::new(3.0, 4.0, -3.0),
            PointZ::new(5.0, 6.0, -3.0),
        ]
    );
    assert_eq!(
        mesh.faces,
        vec![vec![1, 2, 3], vec![1, 2, 5, 4], vec![2, 3, 6, 5], vec![3, 1, 4, 6], vec![4, 5, 6]]
    );
}

#[test]
fn extrusion_works_on_integer_coordinates() {
    let mesh = Floorplan3DMesh::extrude(
        vec![Point::new(0i64, 0), Point::new(4, 0), Point::new(4, 4), Point::new(0, 4)],
        &Elevations::new(0i64, 3),
    );
    assert_eq!(mesh.vertices[3], PointZ::new(0, 4, 3));
    assert_eq!(mesh.vertices[7], PointZ::new(0, 4, 0));
    assert_eq!(mesh.faces[4], vec![4, 1, 5, 8]);
}

#[test]
fn counts_and_index_ranges_hold_for_many_sizes() {
    for n in 1..=20usize {
        let outline: Vec<Point<f32>> = (0..n).map(|k| Point::new(k as f32, (k * k) as f32)).collect();
        let prism = Floorplan3DMesh::extrude(outline.clone(), &standard_levels());
        assert_eq!(prism.vertices.len(), 2 * n);
        assert_eq!(prism.faces.len(), n + 2);
        for face in &prism.faces {
            assert!(face.iter().all(|&i| 1 <= i && i <= 2 * n));
            if n != 1 {
                let mut sorted = face.clone();
                sorted.sort();
                sorted.dedup();
                assert_eq!(sorted.len(), face.len());
            }
        }
        let flat = Floorplan2DMesh::from_points(outline.clone());
        assert_eq!(flat.vertices, outline);
        assert_eq!(flat.faces, vec![(1..=n).collect::<Vec<usize>>()]);
    }
}

#[test]
fn last_side_face_wraps_around_to_the_first_point() {
    let mesh = Floorplan3DMesh::extrude(hexagon(), &standard_levels());
    assert_eq!(mesh.faces[6], vec![6, 1, 7, 12]);
}

#[test]
fn top_and_bottom_faces_follow_the_outline_order() {
    let mesh = Floorplan3DMesh::extrude(hexagon(), &standard_levels());
    assert_eq!(mesh.faces[0], vec![1, 2, 3, 4, 5, 6]);
    assert_eq!(mesh.faces[7], vec![7, 8, 9, 10, 11, 12]);
}

#[test]
fn flat_mesh_of_the_hexagon_keeps_its_points() {
    let mesh = Floorplan2DMesh::from_points(hexagon());
    assert_eq!(mesh.vertices, hexagon());
    assert_eq!(mesh.faces, vec![vec![1, 2, 3, 4, 5, 6]]);
}

#[test]
fn flat_mesh_of_an_empty_outline_has_one_empty_face() {
    let mesh: Floorplan2DMesh<f32> = Floorplan2DMesh::from_points(vec![]);
    assert!(mesh.vertices.is_empty());
    assert_eq!(mesh.faces, vec![Vec::<usize>::new()]);
}

#[test]
fn single_point_outline_gives_a_degenerate_prism() {
    let mesh = Floorplan3DMesh::extrude(vec![Point::new(2.0f32, 3.0)], &standard_levels());
    assert_eq!(mesh.vertices, vec![PointZ::new(2.0, 3.0, 10.0), PointZ::new(2.0, 3.0, 0.0)]);
    // The one side wall joins the point to itself: known degenerate case.
    assert_eq!(mesh.faces, vec![vec![1], vec![1, 1, 2, 2], vec![2]]);
}

#[test]
fn two_point_outline_gives_a_degenerate_prism() {
    let mesh = Floorplan3DMesh::extrude(vec![Point::new(0.0f32, 0.0), Point::new(1.0, 0.0)], &standard_levels());
    assert_eq!(mesh.vertices.len(), 4);
    // Both side walls span the same segment and have no area: known degenerate case.
    assert_eq!(mesh.faces, vec![vec![1, 2], vec![1, 2, 4, 3], vec![2, 1, 3, 4], vec![3, 4]]);
}

#[test]
fn no_outlines_give_no_meshes() {
    let meshes = process_shapes(Vec::<Vec<Point<f32>>>::new(), &standard_levels());
    assert!(meshes.is_empty());
    assert!(select_polygons(Vec::<Vec<Point<f32>>>::new()).is_empty());
}

#[test]
fn one_prism_per_outline_in_input_order() {
    let square = vec![Point::new(0.0f32, 0.0), Point::new(1.0, 0.0), Point::new(1.0, 1.0), Point::new(0.0, 1.0)];
    let levels = standard_levels();
    let meshes = process_shapes(vec![hexagon(), square.clone()], &levels);
    assert_eq!(meshes.len(), 2);
    assert_eq!(meshes[0], Floorplan3DMesh::extrude(hexagon(), &levels));
    assert_eq!(meshes[1], Floorplan3DMesh::extrude(square, &levels));
}

#[test]
fn empty_outlines_are_dropped_and_short_ones_kept() {
    let one = vec![Point::new(7.0f32, 7.0)];
    let two = vec![Point::new(1.0f32, 1.0), Point::new(2.0, 2.0)];
    let kept = select_polygons(vec![vec![], one.clone(), vec![], hexagon(), two.clone(), vec![]]);
    assert_eq!(kept, vec![one, hexagon(), two]);
}
