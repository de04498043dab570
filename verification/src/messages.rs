use vstd::prelude::*;

verus! {

/// A position on the map, latitude and longitude in units of 1e-7 degrees.
#[derive(Debug, Clone, Copy, PartialEq, Eq, Structural)]
pub struct Point {
    pub latitude: i32,
    pub longitude: i32,
}

/// A rectangle given by two opposite corners.
#[derive(Debug)]
pub struct Rectangle {
    pub lo: Option<Point>,
    pub hi: Option<Point>,
}

/// A named place.
#[derive(Debug)]
pub struct Feature {
    pub name: String,
    pub location: Option<Point>,
}

/// A message left at a location.
#[derive(Debug)]
pub struct RouteNote {
    pub location: Option<Point>,
    pub message: String,
}

/// What the server reports after a route has been recorded.
#[derive(Debug, Clone, Copy, PartialEq, Eq, Structural)]
pub struct RouteSummary {
    pub point_count: i32,
    pub feature_count: i32,
    pub distance: i32,
    pub elapsed_time: i32,
}

impl Clone for Rectangle {
    fn clone(&self) -> (res: Self)
        ensures
            res == *self,
    {
        Rectangle { lo: self.lo, hi: self.hi }
    }
}

impl Clone for Feature {
    fn clone(&self) -> (res: Self)
        ensures
            res == *self,
    {
        Feature { name: self.name.clone(), location: self.location }
    }
}

impl Clone for RouteNote {
    fn clone(&self) -> (res: Self)
        ensures
            res == *self,
    {
        RouteNote { location: self.location, message: self.message.clone() }
    }
}

impl Default for Feature {
    fn default() -> (res: Self)
        ensures
            res.name@ == Seq::<char>::empty(),
            res.location is None,
    {
        Feature { name: String::new(), location: None }
    }
}

impl Default for RouteSummary {
    fn default() -> (res: Self)
        ensures
            res == (RouteSummary { point_count: 0, feature_count: 0, distance: 0, elapsed_time: 0 }),
    {
        RouteSummary { point_count: 0, feature_count: 0, distance: 0, elapsed_time: 0 }
    }
}

} // verus!

verus! {

/// A vote on a post: the request carries its wire code.
#[derive(Debug, Clone, Copy, PartialEq, Eq, Structural)]
pub enum Vote {
    Up,
    Down,
}

impl Vote {
    pub open spec fn spec_code(self) -> i32 {
        match self {
            Vote::Up => 0,
            Vote::Down => 1,
        }
    }

    /// The code that stands for this vote on the wire.
    pub fn code(self) -> (res: i32)
        ensures
            res == self.spec_code(),
    {
        match self {
            Vote::Up => 0,
            Vote::Down => 1,
        }
    }
}

#[derive(Debug)]
pub struct VotingRequest {
    pub url: String,
    pub vote: i32,
}

#[derive(Debug)]
pub struct VotingResponse {
    pub confirmation: String,
}

#[derive(Debug)]
pub struct HelloReq {
    pub content: String,
}

#[derive(Debug)]
pub struct HelloResp {
    pub content: String,
}

/// The kind of a refused request.
#[derive(Debug, Clone, Copy, PartialEq, Eq, Structural)]
pub enum RpcCode {
    OutOfRange,
}

/// A refused request: its kind and the message sent back with it.
#[derive(Debug)]
pub struct RpcStatus {
    pub code: RpcCode,
    pub message: String,
}

} // verus!
