use vstd::prelude::*;

use crate::messages::{Point, Rectangle, RouteNote};
use crate::random::Draws;

verus! {

/// The point on the client's grid for a latitude draw and a longitude draw:
/// whole degrees, in units of 1e-7 degrees.
pub open spec fn grid_point(lat_draw: int, lng_draw: int) -> Point {
    Point {
        latitude: ((lat_draw - 90) * 10_000_000) as i32,
        longitude: ((lng_draw - 180) * 10_000_000) as i32,
    }
}

/// Whether `p` is a point that the client's random draws can give.
pub open spec fn is_grid_point(p: Point) -> bool {
    exists|a: int, b: int| 0 <= a < 180 && 0 <= b < 360 && p == #[trigger] grid_point(a, b)
}

/// The grid point for the draws `lat_draw` in `0..180` and `lng_draw` in
/// `0..360`.
pub fn point_from_draws(lat_draw: i32, lng_draw: i32) -> (res: Point)
    requires
        0 <= lat_draw < 180,
        0 <= lng_draw < 360,
    ensures
        res == grid_point(lat_draw as int, lng_draw as int),
{
    Point { latitude: (lat_draw - 90) * 10_000_000, longitude: (lng_draw - 180) * 10_000_000 }
}

/// The point that the draws at `k` and `k + 1` of `taken` give.
pub open spec fn drawn_point(taken: Seq<i32>, k: int) -> Point {
    grid_point(taken[k] as int, taken[k + 1] as int)
}

/// Whether `taken` extends `before` by exactly `n` draws.
pub open spec fn extends_by(taken: Seq<i32>, before: Seq<i32>, n: int) -> bool {
    &&& taken.len() == before.len() + n
    &&& taken.subrange(0, before.len() as int) == before
}

/// A random whole-degree point: a latitude draw from `0..180`, then a
/// longitude draw from `0..360`, and the grid point they give.
pub fn point_from(draws: &mut Draws) -> (res: Point)
    ensures
        extends_by(final(draws).taken(), old(draws).taken(), 2),
        0 <= final(draws).taken()[old(draws).taken().len() as int] < 180,
        0 <= final(draws).taken()[old(draws).taken().len() + 1int] < 360,
        res == drawn_point(final(draws).taken(), old(draws).taken().len() as int),
        is_grid_point(res),
{
    let ghost before = draws.taken();
    let lat_draw: i32 = draws.draw(0, 180);
    let lng_draw: i32 = draws.draw(0, 360);
    assert(draws.taken().subrange(0, before.len() as int) =~= before);
    let res = point_from_draws(lat_draw, lng_draw);
    assert(res == grid_point(lat_draw as int, lng_draw as int));
    res
}

/// A random whole-degree point.
pub fn random_point() -> (res: Point)
    ensures
        is_grid_point(res),
{
    let mut draws = Draws::new();
    point_from(&mut draws)
}

/// A route of `point_count + 1` random whole-degree points: point `i` is the
/// one that draws `2 * i` and `2 * i + 1` after the ones made before give.
pub fn route_from(draws: &mut Draws, point_count: i32) -> (res: Vec<Point>)
    requires
        2 <= point_count < 100,
    ensures
        res@.len() == point_count + 1,
        extends_by(final(draws).taken(), old(draws).taken(), 2 * (point_count + 1)),
        forall|i: int|
            0 <= i < res@.len() ==> #[trigger] res@[i] == drawn_point(
                final(draws).taken(),
                old(draws).taken().len() + 2 * i,
            ),
        forall|i: int| 0 <= i < res@.len() ==> is_grid_point(#[trigger] res@[i]),
{
    let ghost before = draws.taken();
    let mut points: Vec<Point> = Vec::new();
    let mut i: i32 = 0;
    assert(draws.taken().subrange(0, before.len() as int) =~= before);
    while i <= point_count
        invariant
            0 <= i <= point_count + 1,
            2 <= point_count < 100,
            points@.len() == i,
            extends_by(draws.taken(), before, 2 * i),
            forall|j: int|
                0 <= j < points@.len() ==> #[trigger] points@[j] == drawn_point(
                    draws.taken(),
                    before.len() + 2 * j,
                ),
            forall|j: int| 0 <= j < points@.len() ==> is_grid_point(#[trigger] points@[j]),
        decreases point_count + 1 - i,
    {
        let ghost mid = draws.taken();
        let p = point_from(draws);
        proof {
            assert forall|j: int| 0 <= j < points@.len() implies #[trigger] points@[j]
                == drawn_point(draws.taken(), before.len() + 2 * j) by {
                assert(draws.taken()[before.len() + 2 * j] == mid[before.len() + 2 * j]);
                assert(draws.taken()[before.len() + 2 * j + 1] == mid[before.len() + 2 * j + 1]);
            }
            assert(draws.taken().subrange(0, before.len() as int) =~= before) by {
                assert(draws.taken().subrange(0, mid.len() as int) == mid);
                assert forall|k: int| 0 <= k < before.len() implies draws.taken()[k] == before[k] by {
                    assert(draws.taken().subrange(0, mid.len() as int)[k] == draws.taken()[k]);
                    assert(mid.subrange(0, before.len() as int)[k] == mid[k]);
                }
            }
        }
        points.push(p);
        i = i + 1;
    }
    points
}

/// A route of `point_count + 1` random whole-degree points.
pub fn route_from_count(point_count: i32) -> (res: Vec<Point>)
    requires
        2 <= point_count < 100,
    ensures
        res@.len() == point_count + 1,
        forall|i: int| 0 <= i < res@.len() ==> is_grid_point(#[trigger] res@[i]),
{
    let mut draws = Draws::new();
    route_from(&mut draws, point_count)
}

/// A random route: a count drawn from `2..100`, then a route of one point
/// more than that count from the draws that follow.
pub fn route_with_count_from(draws: &mut Draws) -> (res: Vec<Point>)
    ensures
        extends_by(final(draws).taken(), old(draws).taken(), 1 + 2 * res@.len() as int),
        2 <= final(draws).taken()[old(draws).taken().len() as int] < 100,
        res@.len() == final(draws).taken()[old(draws).taken().len() as int] + 1,
        forall|i: int|
            0 <= i < res@.len() ==> #[trigger] res@[i] == drawn_point(
                final(draws).taken(),
                old(draws).taken().len() + 1 + 2 * i,
            ),
        forall|i: int| 0 <= i < res@.len() ==> is_grid_point(#[trigger] res@[i]),
{
    let ghost before = draws.taken();
    let point_count: i32 = draws.draw(2, 100);
    let ghost mid = draws.taken();
    let res = route_from(draws, point_count);
    proof {
        assert(draws.taken()[before.len() as int] == mid[before.len() as int]) by {
            assert(draws.taken().subrange(0, mid.len() as int)[before.len() as int]
                == draws.taken()[before.len() as int]);
        }
        assert forall|k: int| 0 <= k < before.len() implies draws.taken()[k] == before[k] by {
            assert(draws.taken().subrange(0, mid.len() as int)[k] == draws.taken()[k]);
        }
        assert(draws.taken().subrange(0, before.len() as int) =~= before);
    }
    res
}

/// The points of a random route: a count drawn from `2..100`, then one
/// point more than that count.
pub fn random_route() -> (res: Vec<Point>)
    ensures
        3 <= res@.len() <= 100,
        forall|i: int| 0 <= i < res@.len() ==> is_grid_point(#[trigger] res@[i]),
{
    let mut draws = Draws::new();
    route_with_count_from(&mut draws)
}

/// The rectangle whose places the client asks to have listed.
pub fn feature_search_rectangle() -> (res: Rectangle)
    ensures
        res.lo == Some(Point { latitude: 400_000_000, longitude: -750_000_000i32 }),
        res.hi == Some(Point { latitude: 420_000_000, longitude: -730_000_000i32 }),
{
    Rectangle {
        lo: Some(Point { latitude: 400_000_000, longitude: -750_000_000 }),
        hi: Some(Point { latitude: 420_000_000, longitude: -730_000_000 }),
    }
}

/// The point whose place the client looks up.
pub fn lookup_point() -> (res: Point)
    ensures
        res == (Point { latitude: 409_146_138, longitude: -746_188_906i32 }),
{
    Point { latitude: 409_146_138, longitude: -746_188_906 }
}

/// The note the client sends `elapsed_secs` seconds into a route chat: it
/// moves north by one unit per second (the seconds cut to 32 bits) from
/// the looked-up point.
pub fn outbound_note(elapsed_secs: u64, message: String) -> (res: RouteNote)
    requires
        409_146_138 + (elapsed_secs as i32) <= i32::MAX,
    ensures
        res.location == Some(
            Point {
                latitude: (409_146_138 + (elapsed_secs as i32)) as i32,
                longitude: -746_188_906i32,
            },
        ),
        res.message@ == message@,
{
    let secs: i32 = elapsed_secs as i32;
    RouteNote {
        location: Some(Point { latitude: 409_146_138 + secs, longitude: -746_188_906 }),
        message,
    }
}

} // verus!
