use vstd::prelude::*;

use crate::messages::{Point, Rectangle};

verus! {

pub open spec fn min_i32(a: i32, b: i32) -> i32 {
    if a <= b { a } else { b }
}

pub open spec fn max_i32(a: i32, b: i32) -> i32 {
    if a >= b { a } else { b }
}

/// The rectangle test as the service applies it. Its third comparison sets
/// the point's longitude against the smaller of the corners' latitudes, so
/// the southern edge is tested with the longitude and the latitude has no
/// lower bound.
pub open spec fn spec_in_rang(point: Point, lo: Point, hi: Point) -> bool {
    let left = min_i32(lo.longitude, hi.longitude);
    let right = max_i32(lo.longitude, hi.longitude);
    let top = max_i32(lo.latitude, hi.latitude);
    let bottom = min_i32(lo.latitude, hi.latitude);
    &&& point.longitude >= left
    &&& point.longitude <= right
    &&& point.longitude >= bottom
    &&& point.latitude <= top
}

/// The rectangle test in plain integer order: the longitude lies between the
/// corners' longitudes and is no smaller than the smaller corner latitude,
/// and the latitude is no larger than the larger corner latitude.
pub open spec fn in_rang_by_order(point: Point, lo: Point, hi: Point) -> bool {
    let x = point.longitude as int;
    let y = point.latitude as int;
    &&& (lo.longitude as int <= x || hi.longitude as int <= x)
    &&& (x <= lo.longitude as int || x <= hi.longitude as int)
    &&& (lo.latitude as int <= x || hi.latitude as int <= x)
    &&& (y <= lo.latitude as int || y <= hi.latitude as int)
}

/// The rectangle test compares coordinates as integers, with no arithmetic
/// on them that could wrap.
pub proof fn lemma_in_rang_by_order(point: Point, lo: Point, hi: Point)
    ensures
        spec_in_rang(point, lo, hi) <==> {
            &&& (lo.longitude as int <= point.longitude as int || hi.longitude as int
                <= point.longitude as int)
            &&& (point.longitude as int <= lo.longitude as int || point.longitude as int
                <= hi.longitude as int)
            &&& (lo.latitude as int <= point.longitude as int || hi.latitude as int
                <= point.longitude as int)
            &&& (point.latitude as int <= lo.latitude as int || point.latitude as int
                <= hi.latitude as int)
        },
        spec_in_rang(point, lo, hi) <==> in_rang_by_order(point, lo, hi),
{
}

/// A point at a corner's longitude and latitude-wise within the rectangle
/// passes, whatever the size of the rectangle.
pub proof fn lemma_in_rang_corner_longitude(point: Point, lo: Point, hi: Point)
    requires
        point.longitude == lo.longitude || point.longitude == hi.longitude,
        point.longitude >= lo.latitude || point.longitude >= hi.latitude,
        point.latitude <= lo.latitude || point.latitude <= hi.latitude,
    ensures
        spec_in_rang(point, lo, hi),
{
}

/// Whether `point` passes the service's rectangle test for `rect`.
pub fn in_rang(point: &Point, rect: &Rectangle) -> (res: bool)
    requires
        rect.lo is Some,
        rect.hi is Some,
    ensures
        res == spec_in_rang(*point, rect.lo->0, rect.hi->0),
        res == in_rang_by_order(*point, rect.lo->0, rect.hi->0),
{
    let lo = rect.lo.as_ref().unwrap();
    let hi = rect.hi.as_ref().unwrap();
    let left: i32 = if lo.longitude <= hi.longitude { lo.longitude } else { hi.longitude };
    let right: i32 = if lo.longitude >= hi.longitude { lo.longitude } else { hi.longitude };
    let top: i32 = if lo.latitude >= hi.latitude { lo.latitude } else { hi.latitude };
    let bottom: i32 = if lo.latitude <= hi.latitude { lo.latitude } else { hi.latitude };
    point.longitude >= left && point.longitude <= right && point.longitude >= bottom
        && point.latitude <= top
}

/// The rectangle test does not depend on which corner is given first.
pub proof fn lemma_in_rang_corner_order(point: Point, lo: Point, hi: Point)
    ensures
        spec_in_rang(point, lo, hi) == spec_in_rang(point, hi, lo),
{
}

} // verus!
