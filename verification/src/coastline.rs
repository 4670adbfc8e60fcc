//! Flattening GeoJSON-shaped geometry into the polylines the map paints.
//!
//! Every line string, every ring of a polygon and every member of a
//! collection becomes one polyline, in document order; points contribute
//! nothing. A position becomes a `(lat, lon)` pair from its second and first
//! coordinate; positions with fewer than two coordinates are dropped.

use vstd::prelude::*;

verus! {

/// A GeoJSON geometry whose coordinates are of type `C`. A position is a
/// `Vec<C>` (longitude, latitude, maybe more).
pub enum Shape<C> {
    Point(Vec<C>),
    MultiPoint(Vec<Vec<C>>),
    LineString(Vec<Vec<C>>),
    MultiLineString(Vec<Vec<Vec<C>>>),
    Polygon(Vec<Vec<Vec<C>>>),
    MultiPolygon(Vec<Vec<Vec<Vec<C>>>>),
    Collection(Vec<Shape<C>>),
}

/// The `(lat, lon)` pairs of the positions that have at least two
/// coordinates, in order.
pub open spec fn polyline<C>(positions: Seq<Vec<C>>) -> Seq<(C, C)>
    decreases positions.len(),
{
    if positions.len() == 0 {
        Seq::empty()
    } else {
        let rest = polyline(positions.drop_last());
        let p = positions.last()@;
        if p.len() >= 2 {
            rest.push((p[1], p[0]))
        } else {
            rest
        }
    }
}

/// One polyline per position list, in order.
pub open spec fn polylines<C>(lists: Seq<Vec<Vec<C>>>) -> Seq<Seq<(C, C)>>
    decreases lists.len(),
{
    if lists.len() == 0 {
        Seq::empty()
    } else {
        polylines(lists.drop_last()).push(polyline(lists.last()@))
    }
}

/// One polyline per ring of each polygon, in order.
pub open spec fn polygon_lines<C>(polys: Seq<Vec<Vec<Vec<C>>>>) -> Seq<Seq<(C, C)>>
    decreases polys.len(),
{
    if polys.len() == 0 {
        Seq::empty()
    } else {
        polygon_lines(polys.drop_last()) + polylines(polys.last()@)
    }
}

/// The polylines of a geometry, in document order.
pub open spec fn shape_lines<C>(g: Shape<C>) -> Seq<Seq<(C, C)>>
    decreases g,
{
    match g {
        Shape::Point(_) => Seq::empty(),
        Shape::MultiPoint(_) => Seq::empty(),
        Shape::LineString(ps) => seq![polyline(ps@)],
        Shape::MultiLineString(ls) => polylines(ls@),
        Shape::Polygon(rings) => polylines(rings@),
        Shape::MultiPolygon(polys) => polygon_lines(polys@),
        Shape::Collection(gs) => collection_lines(gs@),
    }
}

/// The polylines of each geometry in turn.
pub open spec fn collection_lines<C>(gs: Seq<Shape<C>>) -> Seq<Seq<(C, C)>>
    decreases gs,
{
    if gs.len() == 0 {
        Seq::empty()
    } else {
        collection_lines(gs.drop_last()) + shape_lines(gs.last())
    }
}

/// The `(lat, lon)` pairs of the positions with at least two coordinates.
pub fn coords_to_latlons<C: Copy>(coords: &Vec<Vec<C>>) -> (line: Vec<(C, C)>)
    ensures
        line@ == polyline(coords@),
{
    let mut line: Vec<(C, C)> = Vec::new();
    let mut i: usize = 0;
    while i < coords.len()
        invariant
            i <= coords.len(),
            line@ == polyline(coords@.take(i as int)),
        decreases coords.len() - i,
    {
        proof {
            assert(coords@.take(i + 1).drop_last() =~= coords@.take(i as int));
        }
        let c = &coords[i];
        if c.len() >= 2 {
            line.push((c[1], c[0]));
        }
        i = i + 1;
    }
    proof {
        assert(coords@.take(i as int) =~= coords@);
    }
    line
}

fn push_lines<C: Copy>(lists: &Vec<Vec<Vec<C>>>, out: &mut Vec<Vec<(C, C)>>)
    ensures
        final(out)@.map_values(|l: Vec<(C, C)>| l@) == old(out)@.map_values(
            |l: Vec<(C, C)>| l@,
        ) + polylines(lists@),
{
    let ghost start = out@.map_values(|l: Vec<(C, C)>| l@);
    let mut i: usize = 0;
    while i < lists.len()
        invariant
            i <= lists.len(),
            out@.map_values(|l: Vec<(C, C)>| l@) == start + polylines(lists@.take(i as int)),
        decreases lists.len() - i,
    {
        proof {
            assert(lists@.take(i + 1).drop_last() =~= lists@.take(i as int));
        }
        let line = coords_to_latlons(&lists[i]);
        let ghost before = out@;
        let ghost line_view = line@;
        out.push(line);
        proof {
            assert(out@.map_values(|l: Vec<(C, C)>| l@) =~= before.map_values(
                |l: Vec<(C, C)>| l@,
            ).push(line_view));
            assert(out@.map_values(|l: Vec<(C, C)>| l@) =~= start + polylines(
                lists@.take(i + 1),
            ));
        }
        i = i + 1;
    }
    proof {
        assert(lists@.take(i as int) =~= lists@);
    }
}

/// Append the polylines of `g` to `out`, in document order.
pub fn push_geometry<C: Copy>(g: &Shape<C>, out: &mut Vec<Vec<(C, C)>>)
    ensures
        final(out)@.map_values(|l: Vec<(C, C)>| l@) == old(out)@.map_values(
            |l: Vec<(C, C)>| l@,
        ) + shape_lines(*g),
    decreases g,
{
    let ghost start = out@.map_values(|l: Vec<(C, C)>| l@);
    match g {
        Shape::Point(_) | Shape::MultiPoint(_) => {
            assert(start + shape_lines(*g) =~= start);
        },
        Shape::LineString(ps) => {
            let line = coords_to_latlons(ps);
            let ghost before = out@;
            let ghost line_view = line@;
            out.push(line);
            assert(out@.map_values(|l: Vec<(C, C)>| l@) =~= before.map_values(
                |l: Vec<(C, C)>| l@,
            ).push(line_view));
            assert(out@.map_values(|l: Vec<(C, C)>| l@) =~= start + shape_lines(*g));
        },
        Shape::MultiLineString(ls) => {
            push_lines(ls, out);
        },
        Shape::Polygon(rings) => {
            push_lines(rings, out);
        },
        Shape::MultiPolygon(polys) => {
            let mut i: usize = 0;
            while i < polys.len()
                invariant
                    i <= polys.len(),
                    out@.map_values(|l: Vec<(C, C)>| l@) == start + polygon_lines(
                        polys@.take(i as int),
                    ),
                decreases polys.len() - i,
            {
                proof {
                    assert(polys@.take(i + 1).drop_last() =~= polys@.take(i as int));
                }
                push_lines(&polys[i], out);
                proof {
                    assert(start + polygon_lines(polys@.take(i as int)) + polylines(polys@[i as int]@)
                        =~= start + polygon_lines(polys@.take(i + 1)));
                }
                i = i + 1;
            }
            proof {
                assert(polys@.take(i as int) =~= polys@);
            }
        },
        Shape::Collection(gs) => {
            proof {
                assert(decreases_to!(*g => *gs));
                assert(decreases_to!(*gs => gs@));
            }
            let mut i: usize = 0;
            while i < gs.len()
                invariant
                    decreases_to!(*g => gs@),
                    i <= gs.len(),
                    out@.map_values(|l: Vec<(C, C)>| l@) == start + collection_lines(
                        gs@.take(i as int),
                    ),
                decreases gs.len() - i,
            {
                proof {
                    assert(gs@.take(i + 1).drop_last() =~= gs@.take(i as int));
                    assert(decreases_to!(gs@ => gs@[i as int]));
                }
                push_geometry(&gs[i], out);
                proof {
                    assert(start + collection_lines(gs@.take(i as int)) + shape_lines(gs@[i as int])
                        =~= start + collection_lines(gs@.take(i + 1)));
                }
                i = i + 1;
            }
            proof {
                assert(gs@.take(i as int) =~= gs@);
            }
        },
    }
}

/// A line of well-formed positions keeps every position, in order, each
/// turned into `(lat, lon)` from its second and first coordinate.
pub proof fn law_polyline_keeps_positions<C>(ps: Seq<Vec<C>>)
    requires
        forall|i: int| 0 <= i < ps.len() ==> (#[trigger] ps[i])@.len() >= 2,
    ensures
        polyline(ps).len() == ps.len(),
        forall|i: int|
            0 <= i < ps.len() ==> #[trigger] polyline(ps)[i] == (ps[i]@[1], ps[i]@[0]),
    decreases ps.len(),
{
    if ps.len() > 0 {
        law_polyline_keeps_positions(ps.drop_last());
    }
}

/// Splitting a line's positions splits its polyline: the positions are
/// read one by one, and one with fewer than two coordinates adds nothing.
pub proof fn law_polyline_concat<C>(a: Seq<Vec<C>>, b: Seq<Vec<C>>)
    ensures
        polyline(a + b) == polyline(a) + polyline(b),
        b.len() == 1 && b[0]@.len() < 2 ==> polyline(a + b) == polyline(a),
    decreases b.len(),
{
    if b.len() == 0 {
        assert(a + b =~= a);
        assert(polyline(a) + polyline(b) =~= polyline(a));
    } else {
        law_polyline_concat(a, b.drop_last());
        assert((a + b).drop_last() =~= a + b.drop_last());
        assert((a + b).last() == b.last());
        assert(polyline(a) + polyline(b.drop_last()).push((b.last()@[1], b.last()@[0])) =~= (
        polyline(a) + polyline(b.drop_last())).push((b.last()@[1], b.last()@[0])));
    }
}

/// Position lists give one polyline each, in order.
pub proof fn law_polylines_one_per_list<C>(lists: Seq<Vec<Vec<C>>>)
    ensures
        polylines(lists).len() == lists.len(),
        forall|i: int|
            0 <= i < lists.len() ==> #[trigger] polylines(lists)[i] == polyline(lists[i]@),
    decreases lists.len(),
{
    if lists.len() > 0 {
        law_polylines_one_per_list(lists.drop_last());
    }
}

/// A multi-line string and a polygon give one polyline per member line or
/// ring, in order; a line string gives exactly one; points give none.
pub proof fn law_shape_line_counts<C>(g: Shape<C>)
    ensures
        g matches Shape::MultiLineString(ls) ==> shape_lines(g).len() == ls@.len() && forall|
            i: int,
        |
            0 <= i < ls@.len() ==> #[trigger] shape_lines(g)[i] == polyline(ls@[i]@),
        g matches Shape::Polygon(rings) ==> shape_lines(g).len() == rings@.len() && forall|
            i: int,
        |
            0 <= i < rings@.len() ==> #[trigger] shape_lines(g)[i] == polyline(rings@[i]@),
        g matches Shape::LineString(ps) ==> shape_lines(g) == seq![polyline(ps@)],
        g is Point || g is MultiPoint ==> shape_lines(g).len() == 0,
{
    match g {
        Shape::MultiLineString(ls) => law_polylines_one_per_list(ls@),
        Shape::Polygon(rings) => law_polylines_one_per_list(rings@),
        _ => {},
    }
}

/// A collection's lines are its members' lines, in order: splitting the
/// member list splits the lines.
pub proof fn law_collection_concat<C>(a: Seq<Shape<C>>, b: Seq<Shape<C>>)
    ensures
        collection_lines(a + b) == collection_lines(a) + collection_lines(b),
    decreases b.len(),
{
    if b.len() == 0 {
        assert(a + b =~= a);
        assert(collection_lines(a) + collection_lines(b) =~= collection_lines(a));
    } else {
        law_collection_concat(a, b.drop_last());
        assert((a + b).drop_last() =~= a + b.drop_last());
        assert((a + b).last() == b.last());
        assert(collection_lines(a) + (collection_lines(b.drop_last()) + shape_lines(b.last()))
            =~= collection_lines(a) + collection_lines(b.drop_last()) + shape_lines(b.last()));
    }
}

/// A multi-polygon's lines are its polygons' rings, polygon by polygon:
/// splitting the polygon list splits the lines, and a single polygon gives
/// one polyline per ring.
pub proof fn law_polygon_lines_concat<C>(a: Seq<Vec<Vec<Vec<C>>>>, b: Seq<Vec<Vec<Vec<C>>>>)
    ensures
        polygon_lines(a + b) == polygon_lines(a) + polygon_lines(b),
        b.len() == 1 ==> polygon_lines(b) == polylines(b[0]@),
    decreases b.len(),
{
    if b.len() == 0 {
        assert(a + b =~= a);
        assert(polygon_lines(a) + polygon_lines(b) =~= polygon_lines(a));
    } else {
        law_polygon_lines_concat(a, b.drop_last());
        assert((a + b).drop_last() =~= a + b.drop_last());
        assert((a + b).last() == b.last());
        assert(polygon_lines(a) + (polygon_lines(b.drop_last()) + polylines(b.last()@))
            =~= polygon_lines(a) + polygon_lines(b.drop_last()) + polylines(b.last()@));
        if b.len() == 1 {
            assert(polygon_lines(b.drop_last()) =~= Seq::<Seq<(C, C)>>::empty());
            assert(Seq::<Seq<(C, C)>>::empty() + polylines(b[0]@) =~= polylines(b[0]@));
        }
    }
}

} // verus!
