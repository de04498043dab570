use grpc_demo::client::{
    feature_search_rectangle, lookup_point, outbound_note, point_from_draws, random_point,
    random_route, route_from_count,
};
use grpc_demo::greet::{greeting_request, push_decimal};
use grpc_demo::messages::{Point, Vote};
use grpc_demo::voting::{vote_for_round, voting_request, VotingService};

fn on_grid(p: &Point) -> bool {
    p.latitude % 10_000_000 == 0
        && p.longitude % 10_000_000 == 0
        && (-900_000_000..900_000_000).contains(&p.latitude)
        && (-1_800_000_000..1_800_000_000).contains(&p.longitude)
}

#[test]
fn votes_alternate_by_round() {
    assert_eq!(vote_for_round(0), Vote::Up);
    assert_eq!(vote_for_round(1), Vote::Down);
    assert_eq!(vote_for_round(2), Vote::Up);
    assert_eq!(vote_for_round(-1), Vote::Down);
    assert_eq!(vote_for_round(-2), Vote::Up);
    for n in 0..20 {
        assert_ne!(vote_for_round(n), vote_for_round(n + 1));
    }
}

#[test]
fn voting_requests_carry_codes() {
    let r = voting_request("http://helloword.com/post1", 0);
    assert_eq!(r.url, "http://helloword.com/post1");
    assert_eq!(r.vote, 0);
    let r = voting_request("u", 7);
    assert_eq!(r.vote, 1);
    assert_eq!(Vote::Up.code(), 0);
    assert_eq!(Vote::Down.code(), 1);
}

#[test]
fn client_votes_are_accepted() {
    for n in 0..4 {
        let r = voting_request("p", n);
        assert!(VotingService.vote(&r).is_ok());
    }
}

#[test]
fn greeting_requests() {
    assert_eq!(greeting_request(0).content, "hello 0");
    assert_eq!(greeting_request(42).content, "hello 42");
    assert_eq!(greeting_request(-7).content, "hello -7");
    assert_eq!(greeting_request(1_000_000).content, "hello 1000000");
    assert_eq!(greeting_request(i32::MAX).content, format!("hello {}", i32::MAX));
    assert_eq!(greeting_request(i32::MIN).content, format!("hello {}", i32::MIN));
}

#[test]
fn push_decimal_matches_std() {
    for n in [0, 9, 10, 99, 100, 12345, -1, -10, -909, i32::MAX, i32::MIN] {
        let mut s = String::from("x");
        push_decimal(&mut s, n);
        assert_eq!(s, format!("x{}", n));
    }
}

#[test]
fn point_from_draws_formula() {
    assert_eq!(point_from_draws(0, 0), Point { latitude: -900_000_000, longitude: -1_800_000_000 });
    assert_eq!(point_from_draws(90, 180), Point { latitude: 0, longitude: 0 });
    assert_eq!(point_from_draws(179, 359), Point { latitude: 890_000_000, longitude: 1_790_000_000 });
}

#[test]
fn random_points_are_on_grid() {
    for _ in 0..200 {
        let p = random_point();
        assert!(on_grid(&p), "{:?}", p);
    }
}

#[test]
fn random_routes_have_valid_lengths() {
    for _ in 0..50 {
        let route = random_route();
        assert!(route.len() >= 3 && route.len() <= 100);
        assert!(route.iter().all(on_grid));
    }
}

#[test]
fn client_constants() {
    let r = feature_search_rectangle();
    assert_eq!(r.lo, Some(Point { latitude: 400_000_000, longitude: -750_000_000 }));
    assert_eq!(r.hi, Some(Point { latitude: 420_000_000, longitude: -730_000_000 }));
    assert_eq!(lookup_point(), Point { latitude: 409_146_138, longitude: -746_188_906 });
}

#[test]
fn outbound_notes_move_north() {
    let n = outbound_note(0, "at 0ns".to_string());
    assert_eq!(n.location, Some(Point { latitude: 409_146_138, longitude: -746_188_906 }));
    assert_eq!(n.message, "at 0ns");
    let n = outbound_note(5, "at 5s".to_string());
    assert_eq!(n.location, Some(Point { latitude: 409_146_143, longitude: -746_188_906 }));
    // seconds are cut to 32 bits before they are added
    let n = outbound_note((1u64 << 32) + 3, String::new());
    assert_eq!(n.location.unwrap().latitude, 409_146_141);
}

#[test]
fn route_from_count_gives_count_plus_one_points() {
    for c in [2, 3, 50, 99] {
        let route = route_from_count(c);
        assert_eq!(route.len(), (c + 1) as usize);
        assert!(route.iter().all(on_grid));
    }
}
