use vstd::prelude::*;

use crate::geometry::{in_rang, lemma_in_rang_corner_order, spec_in_rang};
use crate::messages::{Feature, Point, Rectangle, RouteSummary};

verus! {

/// Whether a feature's location is exactly `point`.
pub open spec fn located_at(location: Option<Point>, point: Point) -> bool {
    location == Some(point)
}

/// The features of `features` that pass the rectangle test for the corners
/// `lo` and `hi`, in their order.
pub open spec fn features_within(features: Seq<Feature>, lo: Point, hi: Point) -> Seq<Feature>
    decreases features.len(),
{
    if features.len() == 0 {
        Seq::empty()
    } else {
        let rest = features_within(features.drop_last(), lo, hi);
        if spec_in_rang(features.last().location->0, lo, hi) {
            rest.push(features.last())
        } else {
            rest
        }
    }
}

/// How many features of `features` lie exactly at `point`.
pub open spec fn count_at(features: Seq<Feature>, point: Point) -> nat
    decreases features.len(),
{
    if features.len() == 0 {
        0
    } else {
        count_at(features.drop_last(), point) + if located_at(features.last().location, point) {
            1nat
        } else {
            0nat
        }
    }
}

/// Every feature of `features` has a location.
pub open spec fn all_located(features: Seq<Feature>) -> bool {
    forall|i: int| 0 <= i < features.len() ==> (#[trigger] features[i]).location is Some
}

/// `res` is what a lookup of `point` in `features` answers: the first
/// feature located there, or a nameless feature without a location.
pub open spec fn is_lookup_result(features: Seq<Feature>, point: Point, res: Feature) -> bool {
    if exists|i: int| 0 <= i < features.len() && located_at(features[i].location, point) {
        exists|i: int|
            0 <= i < features.len() && located_at(#[trigger] features[i].location, point) && res
                == features[i] && forall|j: int|
                0 <= j < i ==> !located_at(#[trigger] features[j].location, point)
    } else {
        res.name@ == Seq::<char>::empty() && res.location is None
    }
}

pub proof fn lemma_count_at_bound(features: Seq<Feature>, point: Point)
    ensures
        count_at(features, point) <= features.len(),
    decreases features.len(),
{
    if features.len() > 0 {
        lemma_count_at_bound(features.drop_last(), point);
    }
}

fn count_features_at(features: &Vec<Feature>, point: &Point) -> (res: usize)
    ensures
        res == count_at(features@, *point),
{
    let n: usize = features.len();
    let mut count: usize = 0;
    for i in 0..n
        invariant
            n == features@.len(),
            count == count_at(features@.take(i as int), *point),
            count <= i,
    {
        assert(features@.take(i + 1).drop_last() =~= features@.take(i as int));
        let found = match &features[i].location {
            Some(p) => p.latitude == point.latitude && p.longitude == point.longitude,
            None => false,
        };
        if found {
            count = count + 1;
        }
    }
    assert(features@.take(n as int) =~= features@);
    count
}

/// Each place that a listing gives is one of the guide's places and passes
/// the rectangle test, and a listing is never longer than the guide.
pub proof fn lemma_listing_sound(features: Seq<Feature>, lo: Point, hi: Point)
    ensures
        features_within(features, lo, hi).len() <= features.len(),
        forall|k: int|
            0 <= k < features_within(features, lo, hi).len() ==> {
                let f = #[trigger] features_within(features, lo, hi)[k];
                spec_in_rang(f.location->0, lo, hi) && features.contains(f)
            },
    decreases features.len(),
{
    if features.len() > 0 {
        let rest = features.drop_last();
        lemma_listing_sound(rest, lo, hi);
        assert forall|k: int|
            0 <= k < features_within(features, lo, hi).len() implies {
                let f = #[trigger] features_within(features, lo, hi)[k];
                spec_in_rang(f.location->0, lo, hi) && features.contains(f)
            } by {
            let f = features_within(features, lo, hi)[k];
            if k < features_within(rest, lo, hi).len() {
                assert(f == features_within(rest, lo, hi)[k]);
                let j = choose|j: int| 0 <= j < rest.len() && rest[j] == f;
                assert(features[j] == f);
            } else {
                assert(features[features.len() - 1] == f);
            }
        }
    }
}

/// A lookup answers with a place at the point asked for, or with one that
/// has no location.
pub proof fn lemma_lookup_at_point(features: Seq<Feature>, point: Point, res: Feature)
    requires
        is_lookup_result(features, point, res),
    ensures
        res.location is None || res.location == Some(point),
{
}

/// A listing holds exactly the places that pass the rectangle test, in the
/// guide's order: the places filtered by the test.
pub proof fn lemma_listing_is_filter(features: Seq<Feature>, lo: Point, hi: Point)
    ensures
        features_within(features, lo, hi) == features.filter(
            |f: Feature| spec_in_rang(f.location->0, lo, hi),
        ),
    decreases features.len(),
{
    reveal(Seq::filter);
    if features.len() > 0 {
        lemma_listing_is_filter(features.drop_last(), lo, hi);
    }
}

/// No passing place is left out of a listing.
pub proof fn lemma_listing_complete(features: Seq<Feature>, lo: Point, hi: Point)
    ensures
        forall|i: int|
            0 <= i < features.len() && spec_in_rang(features[i].location->0, lo, hi)
                ==> features_within(features, lo, hi).contains(#[trigger] features[i]),
{
    lemma_listing_is_filter(features, lo, hi);
    let pred = |f: Feature| spec_in_rang(f.location->0, lo, hi);
    assert forall|i: int|
        0 <= i < features.len() && spec_in_rang(features[i].location->0, lo, hi) implies features_within(
        features,
        lo,
        hi,
    ).contains(#[trigger] features[i]) by {
        features.lemma_filter_contains(pred, i);
    }
}

/// A listing does not depend on which corner of the rectangle is given first.
pub proof fn lemma_listing_corner_order(features: Seq<Feature>, lo: Point, hi: Point)
    ensures
        features_within(features, lo, hi) == features_within(features, hi, lo),
    decreases features.len(),
{
    if features.len() > 0 {
        lemma_listing_corner_order(features.drop_last(), lo, hi);
        lemma_in_rang_corner_order(features.last().location->0, lo, hi);
    }
}

/// Some place lies exactly at `point` just when the count of places there
/// is not zero.
pub proof fn lemma_count_at_positive(features: Seq<Feature>, point: Point)
    ensures
        count_at(features, point) > 0 <==> exists|i: int|
            0 <= i < features.len() && located_at(#[trigger] features[i].location, point),
    decreases features.len(),
{
    if features.len() > 0 {
        let rest = features.drop_last();
        lemma_count_at_positive(rest, point);
        if exists|i: int| 0 <= i < rest.len() && located_at(#[trigger] rest[i].location, point) {
            let i = choose|i: int| 0 <= i < rest.len() && located_at(#[trigger] rest[i].location, point);
            assert(features[i] == rest[i]);
        }
        if exists|i: int|
            0 <= i < features.len() && located_at(#[trigger] features[i].location, point) {
            let i = choose|i: int|
                0 <= i < features.len() && located_at(#[trigger] features[i].location, point);
            if i < rest.len() {
                assert(rest[i] == features[i]);
            }
        }
    }
}

/// A lookup answers with a located place exactly when some place lies at
/// the point, that is, when the count of places there is not zero.
pub proof fn lemma_lookup_found_iff_counted(features: Seq<Feature>, point: Point, res: Feature)
    requires
        is_lookup_result(features, point, res),
    ensures
        res.location is Some <==> count_at(features, point) > 0,
{
    lemma_count_at_positive(features, point);
}

/// The route guide: a fixed database of named places.
#[derive(Debug)]
pub struct RouteGuideService {
    features: Vec<Feature>,
}

impl RouteGuideService {
    pub closed spec fn feature_db(&self) -> Seq<Feature> {
        self.features@
    }

    /// A guide over the given places.
    pub fn new(features: Vec<Feature>) -> (res: Self)
        ensures
            res.feature_db() == features@,
    {
        RouteGuideService { features }
    }

    /// The guide's places.
    pub fn features(&self) -> (res: &Vec<Feature>)
        ensures
            res@ == self.feature_db(),
    {
        &self.features
    }

    /// The first place located exactly at `point`, or a nameless place
    /// without a location where there is none.
    pub fn get_feature(&self, point: &Point) -> (res: Feature)
        ensures
            is_lookup_result(self.feature_db(), *point, res),
    {
        let n: usize = self.features.len();
        for i in 0..n
            invariant
                n == self.features@.len(),
                forall|j: int| 0 <= j < i ==> !located_at(#[trigger] self.features@[j].location, *point),
        {
            let found = match &self.features[i].location {
                Some(p) => p.latitude == point.latitude && p.longitude == point.longitude,
                None => false,
            };
            if found {
                let res = self.features[i].clone();
                assert(located_at(self.features@[i as int].location, *point));
                return res;
            }
        }
        Feature::default()
    }

    /// How many places, from the first on, have a location: the index of the
    /// first place without one, or the number of places.
    pub fn located_prefix_len(&self) -> (res: usize)
        ensures
            res <= self.feature_db().len(),
            all_located(self.feature_db().take(res as int)),
            res < self.feature_db().len() ==> self.feature_db()[res as int].location is None,
    {
        let n: usize = self.features.len();
        let mut i: usize = 0;
        while i < n
            invariant
                n == self.features@.len(),
                i <= n,
                all_located(self.features@.take(i as int)),
            decreases n - i,
        {
            if self.features[i].location.is_none() {
                return i;
            }
            assert(self.features@.take(i + 1) =~= self.features@.take(i as int).push(
                self.features@[i as int],
            ));
            i = i + 1;
        }
        i
    }

    /// The places among the first `end` that pass the rectangle test for
    /// `rect`, in the guide's order.
    pub fn list_features_before(&self, rect: &Rectangle, end: usize) -> (res: Vec<Feature>)
        requires
            end <= self.feature_db().len(),
            all_located(self.feature_db().take(end as int)),
            end > 0 ==> rect.lo is Some && rect.hi is Some,
        ensures
            res@ == features_within(self.feature_db().take(end as int), rect.lo->0, rect.hi->0),
            res@ == self.feature_db().take(end as int).filter(
                |f: Feature| spec_in_rang(f.location->0, rect.lo->0, rect.hi->0),
            ),
    {
        let ghost lo = rect.lo->0;
        let ghost hi = rect.hi->0;
        let ghost prefix = self.features@.take(end as int);
        let mut res: Vec<Feature> = Vec::new();
        for i in 0..end
            invariant
                end <= self.features@.len(),
                prefix == self.features@.take(end as int),
                all_located(prefix),
                end > 0 ==> rect.lo == Some(lo) && rect.hi == Some(hi),
                res@ == features_within(prefix.take(i as int), lo, hi),
        {
            let feature = &self.features[i];
            assert(prefix.take(i + 1).drop_last() =~= prefix.take(i as int));
            assert(prefix[i as int] == self.features@[i as int]);
            let location = feature.location.unwrap();
            if in_rang(&location, rect) {
                res.push(feature.clone());
            }
        }
        assert(prefix.take(end as int) =~= prefix);
        proof {
            lemma_listing_is_filter(prefix, lo, hi);
        }
        res
    }

    /// The places that pass the rectangle test for `rect`, in the guide's
    /// order.
    pub fn list_features(&self, rect: &Rectangle) -> (res: Vec<Feature>)
        requires
            all_located(self.feature_db()),
            self.feature_db().len() > 0 ==> rect.lo is Some && rect.hi is Some,
        ensures
            res@ == features_within(self.feature_db(), rect.lo->0, rect.hi->0),
            res@ == self.feature_db().filter(
                |f: Feature| spec_in_rang(f.location->0, rect.lo->0, rect.hi->0),
            ),
    {
        let n: usize = self.features.len();
        assert(self.features@.take(n as int) =~= self.features@);
        self.list_features_before(rect, n)
    }

    /// How many places are located exactly at `point`.
    pub fn features_at(&self, point: &Point) -> (res: usize)
        ensures
            res == count_at(self.feature_db(), *point),
    {
        count_features_at(&self.features, point)
    }
}


/// How many (point, place) pairs coincide, over the points of `points` and the
/// places of `features`.
pub open spec fn matches_along(features: Seq<Feature>, points: Seq<Point>) -> nat
    decreases points.len(),
{
    if points.len() == 0 {
        0
    } else {
        matches_along(features, points.drop_last()) + count_at(features, points.last())
    }
}

/// Taking one point out of a route takes out exactly the matches at it.
pub proof fn lemma_matches_along_remove(features: Seq<Feature>, points: Seq<Point>, i: int)
    requires
        0 <= i < points.len(),
    ensures
        matches_along(features, points) == matches_along(features, points.remove(i))
            + count_at(features, points[i]),
    decreases points.len(),
{
    if i == points.len() - 1 {
        assert(points.remove(i) =~= points.drop_last());
    } else {
        let rest = points.drop_last();
        lemma_matches_along_remove(features, rest, i);
        assert(points.remove(i).drop_last() =~= rest.remove(i));
        assert(points.remove(i).last() == points.last());
    }
}

/// The counts of a recorded route do not depend on the order of its points:
/// two routes with the same points, each as often, have as many points and
/// as many matches with the places.
pub proof fn lemma_matches_along_permutation(
    features: Seq<Feature>,
    points: Seq<Point>,
    reordered: Seq<Point>,
)
    requires
        points.to_multiset() == reordered.to_multiset(),
    ensures
        points.len() == reordered.len(),
        matches_along(features, points) == matches_along(features, reordered),
    decreases points.len(),
{
    broadcast use vstd::seq_lib::group_to_multiset_ensures;

    if points.len() == 0 {
        assert(reordered.to_multiset().len() == 0);
    } else {
        let x = points.last();
        let rest = points.drop_last();
        assert(points =~= rest.push(x));
        assert(points.to_multiset() =~= rest.to_multiset().insert(x));
        assert(reordered.to_multiset().count(x) > 0);
        assert(reordered.contains(x));
        let i = choose|i: int| 0 <= i < reordered.len() && reordered[i] == x;
        let others = reordered.remove(i);
        assert(others.to_multiset() =~= reordered.to_multiset().remove(x));
        assert(rest.to_multiset() =~= others.to_multiset());
        lemma_matches_along_permutation(features, rest, others);
        lemma_matches_along_remove(features, reordered, i);
    }
}

/// The server's side of a route recording: the summary so far and the last
/// point received.
pub struct RouteRecorder<'a> {
    features: &'a Vec<Feature>,
    summary: RouteSummary,
    last_point: Option<Point>,
    points: Ghost<Seq<Point>>,
}

impl<'a> RouteRecorder<'a> {
    #[verifier::type_invariant]
    spec fn counts_agree(self) -> bool {
        &&& self.summary.point_count == self.points@.len()
        &&& self.summary.feature_count == matches_along(self.features@, self.points@)
        &&& self.last_point == if self.points@.len() == 0 {
            None
        } else {
            Some(self.points@.last())
        }
    }

    /// The places against which points are matched.
    pub closed spec fn feature_db(&self) -> Seq<Feature> {
        self.features@
    }

    /// The points received so far, in order.
    pub closed spec fn points(&self) -> Seq<Point> {
        self.points@
    }

    /// The summary so far.
    pub closed spec fn view_summary(&self) -> RouteSummary {
        self.summary
    }

    /// A recording of a route that has no point yet, matched against the
    /// guide's places.
    pub fn new(guide: &'a RouteGuideService) -> (res: Self)
        ensures
            res.feature_db() == guide.feature_db(),
            res.points() == Seq::<Point>::empty(),
            res.view_summary() == (RouteSummary {
                point_count: 0,
                feature_count: 0,
                distance: 0,
                elapsed_time: 0,
            }),
    {
        RouteRecorder {
            features: &guide.features,
            summary: RouteSummary::default(),
            last_point: None,
            points: Ghost(Seq::empty()),
        }
    }

    /// The summary so far: one count for each point received, and one for
    /// each place that lies exactly at a received point.
    pub fn summary(&self) -> (res: RouteSummary)
        ensures
            res == self.view_summary(),
            res.point_count == self.points().len(),
            res.feature_count == matches_along(self.feature_db(), self.points()),
    {
        proof {
            use_type_invariant(self);
        }
        self.summary
    }

    /// The last point received, if any.
    pub fn last_point(&self) -> (res: Option<Point>)
        ensures
            res == if self.points().len() == 0 {
                None
            } else {
                Some(self.points().last())
            },
    {
        proof {
            use_type_invariant(self);
        }
        self.last_point
    }

    /// How many places lie exactly at `point`.
    pub fn features_at(&self, point: &Point) -> (res: usize)
        ensures
            res == count_at(self.feature_db(), *point),
    {
        count_features_at(self.features, point)
    }

    /// Takes in the next point of the route: counts it and the places at it.
    /// Returns the point received before it, from which the caller measures
    /// the leg to add with `add_distance`.
    pub fn record_point(&mut self, point: Point) -> (prev: Option<Point>)
        requires
            old(self).view_summary().point_count < i32::MAX,
            old(self).view_summary().feature_count + count_at(old(self).feature_db(), point)
                <= i32::MAX,
        ensures
            prev == if old(self).points().len() == 0 {
                None
            } else {
                Some(old(self).points().last())
            },
            final(self).feature_db() == old(self).feature_db(),
            final(self).points() == old(self).points().push(point),
            final(self).view_summary() == (RouteSummary {
                point_count: (old(self).view_summary().point_count + 1) as i32,
                feature_count: (old(self).view_summary().feature_count + count_at(
                    old(self).feature_db(),
                    point,
                )) as i32,
                ..old(self).view_summary()
            }),
    {
        proof {
            use_type_invariant(&*self);
        }
        let here: usize = self.features_at(&point);
        let prev = self.last_point;
        let ghost new_points = self.points@.push(point);
        assert(new_points.drop_last() =~= self.points@);
        let summary = RouteSummary {
            point_count: self.summary.point_count + 1,
            feature_count: self.summary.feature_count + here as i32,
            ..self.summary
        };
        *self = RouteRecorder {
            features: self.features,
            summary,
            last_point: Some(point),
            points: Ghost(new_points),
        };
        prev
    }

    /// Adds the length of the leg that ends at the last point received.
    pub fn add_distance(&mut self, leg: i32)
        requires
            i32::MIN <= old(self).view_summary().distance + leg <= i32::MAX,
        ensures
            final(self).feature_db() == old(self).feature_db(),
            final(self).points() == old(self).points(),
            final(self).view_summary() == (RouteSummary {
                distance: (old(self).view_summary().distance + leg) as i32,
                ..old(self).view_summary()
            }),
    {
        proof {
            use_type_invariant(&*self);
        }
        let summary = RouteSummary { distance: self.summary.distance + leg, ..self.summary };
        *self = RouteRecorder {
            features: self.features,
            summary,
            last_point: self.last_point,
            points: self.points,
        };
    }

    /// The final summary, with the recording's duration in whole seconds
    /// cut to 32 bits.
    pub fn finish(self, elapsed_secs: u64) -> (res: RouteSummary)
        ensures
            res == (RouteSummary { elapsed_time: elapsed_secs as i32, ..self.view_summary() }),
    {
        RouteSummary { elapsed_time: elapsed_secs as i32, ..self.summary }
    }
}

} // verus!
