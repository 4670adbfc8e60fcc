use wjmclock::coastline::{coords_to_latlons, push_geometry, Shape};

#[test]
fn positions_swap_to_lat_lon_and_short_ones_drop() {
    let coords = vec![vec![10, 50], vec![7], vec![11, 51, 300]];
    assert_eq!(coords_to_latlons(&coords), vec![(50, 10), (51, 11)]);
}

#[test]
fn geometry_flattens_in_document_order() {
    let ring = |a: i32| vec![vec![a, a + 1], vec![a + 2, a + 3]];
    let g = Shape::Collection(vec![
        Shape::Point(vec![1, 2]),
        Shape::LineString(ring(0)),
        Shape::Polygon(vec![ring(10), ring(20)]),
        Shape::MultiPoint(vec![vec![5, 6]]),
        Shape::MultiPolygon(vec![vec![ring(30)], vec![ring(40), ring(50)]]),
        Shape::MultiLineString(vec![ring(60)]),
        Shape::Collection(vec![Shape::LineString(ring(70))]),
    ]);
    let mut out = vec![vec![(-1, -1)]];
    push_geometry(&g, &mut out);
    let firsts: Vec<(i32, i32)> = out.iter().map(|l| l[0]).collect();
    assert_eq!(
        firsts,
        vec![(-1, -1), (1, 0), (11, 10), (21, 20), (31, 30), (41, 40), (51, 50), (61, 60), (71, 70)]
    );
    assert!(out[1..].iter().all(|l| l.len() == 2));
}
