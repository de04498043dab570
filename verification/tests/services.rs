use grpc_demo::features_db::load;
use grpc_demo::geometry::in_rang;
use grpc_demo::greet::GreetService;
use grpc_demo::messages::{
    Feature, HelloReq, Point, Rectangle, RouteNote, RouteSummary, RpcCode, VotingRequest,
};
use grpc_demo::route_chat::RouteChat;
use grpc_demo::route_guide::{RouteGuideService, RouteRecorder};
use grpc_demo::voting::VotingService;

fn pt(latitude: i32, longitude: i32) -> Point {
    Point { latitude, longitude }
}

fn place(name: &str, latitude: i32, longitude: i32) -> Feature {
    Feature { name: name.to_string(), location: Some(pt(latitude, longitude)) }
}

fn rect(lo: Point, hi: Point) -> Rectangle {
    Rectangle { lo: Some(lo), hi: Some(hi) }
}

fn note(latitude: i32, longitude: i32, message: &str) -> RouteNote {
    RouteNote { location: Some(pt(latitude, longitude)), message: message.to_string() }
}

#[test]
fn vote_up_is_confirmed() {
    let req = VotingRequest { url: "http://helloword.com/post1".to_string(), vote: 0 };
    let res = VotingService.vote(&req).unwrap();
    assert_eq!(res.confirmation, "upvoted  for http://helloword.com/post1");
}

#[test]
fn vote_down_is_confirmed() {
    let req = VotingRequest { url: "a/b".to_string(), vote: 1 };
    let res = VotingService.vote(&req).unwrap();
    assert_eq!(res.confirmation, "downvoted for a/b");
}

#[test]
fn vote_with_other_code_is_out_of_range() {
    for code in [2, -1, i32::MAX, i32::MIN] {
        let req = VotingRequest { url: "x".to_string(), vote: code };
        let err = VotingService.vote(&req).unwrap_err();
        assert_eq!(err.code, RpcCode::OutOfRange);
        assert_eq!(err.message, "Invalid vote provided");
    }
}

#[test]
fn vote_on_empty_url() {
    let req = VotingRequest { url: String::new(), vote: 0 };
    assert_eq!(VotingService::default().vote(&req).unwrap().confirmation, "upvoted  for ");
}

#[test]
fn say_hello_echoes() {
    let res = GreetService.say_hello(HelloReq { content: "hello 3".to_string() });
    assert_eq!(res.content, "hello 3");
    let res = GreetService.say_hello(HelloReq { content: String::new() });
    assert_eq!(res.content, "");
}

#[test]
fn in_rang_inside_and_outside() {
    let r = rect(pt(400_000_000, -750_000_000), pt(420_000_000, -730_000_000));
    // the longitude is also compared with the smaller latitude, so no
    // point with a negative longitude passes this rectangle
    assert!(!in_rang(&pt(410_000_000, -740_000_000), &r));
    let r2 = rect(pt(-10, 0), pt(10, 20));
    assert!(in_rang(&pt(5, 5), &r2));
    assert!(in_rang(&pt(-1000, 5), &r2));
    assert!(!in_rang(&pt(11, 5), &r2));
    assert!(!in_rang(&pt(5, 21), &r2));
    assert!(!in_rang(&pt(5, -1), &r2));
    assert!(in_rang(&pt(10, 20), &r2));
    assert!(in_rang(&pt(10, 0), &r2));
}

#[test]
fn in_rang_ignores_corner_order() {
    let a = pt(-10, 0);
    let b = pt(10, 20);
    for p in [pt(5, 5), pt(11, 5), pt(5, -1), pt(-50, 19), pt(0, 21)] {
        assert_eq!(in_rang(&p, &rect(a, b)), in_rang(&p, &rect(b, a)));
    }
}

#[test]
fn in_rang_longitude_against_bottom() {
    // longitude 5 is inside the longitude range but below the bottom latitude 7
    let r = rect(pt(7, 0), pt(20, 20));
    assert!(!in_rang(&pt(10, 5), &r));
    assert!(in_rang(&pt(10, 8), &r));
}

#[test]
fn get_feature_finds_first_match() {
    let guide = RouteGuideService::new(vec![
        place("a", 1, 2),
        place("b", 3, 4),
        place("c", 3, 4),
        Feature { name: "none".to_string(), location: None },
    ]);
    let f = guide.get_feature(&pt(3, 4));
    assert_eq!(f.name, "b");
    assert_eq!(f.location, Some(pt(3, 4)));
}

#[test]
fn get_feature_missing_gives_empty_feature() {
    let guide = RouteGuideService::new(vec![place("a", 1, 2)]);
    let f = guide.get_feature(&pt(2, 1));
    assert_eq!(f.name, "");
    assert_eq!(f.location, None);
}

#[test]
fn get_feature_on_loaded_db() {
    let guide = RouteGuideService::new(load());
    let f = guide.get_feature(&pt(409_146_138, -746_188_906));
    assert_eq!(f.name, "");
    let f = guide.get_feature(&pt(413_628_156, -749_015_468));
    assert_eq!(f.name, "U.S. 6, Shohola, PA 18458, USA");
}

#[test]
fn list_features_filters_in_order() {
    let guide = RouteGuideService::new(vec![
        place("in1", 5, 5),
        place("out", 50, 5),
        place("in2", -3, 19),
        place("out2", 0, 30),
    ]);
    let res = guide.list_features(&rect(pt(10, 20), pt(-10, 0)));
    let names: Vec<&str> = res.iter().map(|f| f.name.as_str()).collect();
    assert_eq!(names, vec!["in1", "in2"]);
}

#[test]
fn list_features_of_client_rectangle_on_loaded_db() {
    let guide = RouteGuideService::new(load());
    let res = guide.list_features(&grpc_demo::client::feature_search_rectangle());
    assert!(res.is_empty());
}

#[test]
fn load_has_all_places() {
    let db = load();
    assert_eq!(db.len(), 19);
    assert_eq!(db[0].name, "Patriots Path, Mendham, NJ 07945, USA");
    assert_eq!(db[0].location, Some(pt(407838351, -746143763)));
    assert_eq!(db[18].name, "282 Lakeview Drive Road, Highland Lake, NY 12743, USA");
    assert_eq!(db[18].location, Some(pt(415301720, -748416257)));
    assert!(db.iter().all(|f| f.location.is_some()));
}

#[test]
fn features_at_counts_places() {
    let guide = RouteGuideService::new(vec![place("a", 1, 1), place("b", 1, 1), place("c", 2, 1)]);
    assert_eq!(guide.features_at(&pt(1, 1)), 2);
    assert_eq!(guide.features_at(&pt(2, 1)), 1);
    assert_eq!(guide.features_at(&pt(3, 1)), 0);
}

#[test]
fn record_route_summary() {
    let guide = RouteGuideService::new(vec![place("a", 1, 1), place("b", 1, 1), place("c", 2, 2)]);
    let mut rec = RouteRecorder::new(&guide);
    assert_eq!(rec.last_point(), None);
    assert_eq!(rec.record_point(pt(1, 1)), None);
    assert_eq!(rec.record_point(pt(5, 5)), Some(pt(1, 1)));
    rec.add_distance(100);
    assert_eq!(rec.record_point(pt(2, 2)), Some(pt(5, 5)));
    rec.add_distance(250);
    assert_eq!(rec.last_point(), Some(pt(2, 2)));
    let s = rec.summary();
    assert_eq!(s, RouteSummary { point_count: 3, feature_count: 3, distance: 350, elapsed_time: 0 });
    assert_eq!(rec.features_at(&pt(1, 1)), 2);
    let done = rec.finish(12);
    assert_eq!(done, RouteSummary { point_count: 3, feature_count: 3, distance: 350, elapsed_time: 12 });
}

#[test]
fn record_route_empty() {
    let guide = RouteGuideService::new(Vec::new());
    let rec = RouteRecorder::new(&guide);
    assert_eq!(rec.finish(0), RouteSummary::default());
}

#[test]
fn finish_cuts_seconds_to_32_bits() {
    let guide = RouteGuideService::new(Vec::new());
    let rec = RouteRecorder::new(&guide);
    let s = rec.finish((1u64 << 32) + 7);
    assert_eq!(s.elapsed_time, 7);
    let rec = RouteRecorder::new(&guide);
    assert_eq!(rec.finish(u32::MAX as u64).elapsed_time, -1);
}

#[test]
fn route_chat_answers_history_at_latitude() {
    let mut chat = RouteChat::new();
    let r = chat.receive(note(1, 10, "a"));
    assert_eq!(r.iter().map(|n| n.message.as_str()).collect::<Vec<_>>(), vec!["a"]);
    let r = chat.receive(note(2, 10, "b"));
    assert_eq!(r.iter().map(|n| n.message.as_str()).collect::<Vec<_>>(), vec!["b"]);
    // same latitude, other longitude: filed together
    let r = chat.receive(note(1, 99, "c"));
    assert_eq!(r.iter().map(|n| n.message.as_str()).collect::<Vec<_>>(), vec!["a", "c"]);
    assert_eq!(r[0].location, Some(pt(1, 10)));
    assert_eq!(r[1].location, Some(pt(1, 99)));
    let r = chat.receive(note(2, 0, "d"));
    assert_eq!(r.iter().map(|n| n.message.as_str()).collect::<Vec<_>>(), vec!["b", "d"]);
}

#[test]
fn listing_ignores_corner_order() {
    let guide = RouteGuideService::new(vec![place("a", 5, 5), place("b", 50, 5), place("c", -3, 19)]);
    let one = guide.list_features(&rect(pt(10, 20), pt(-10, 0)));
    let two = guide.list_features(&rect(pt(-10, 0), pt(10, 20)));
    let n1: Vec<&str> = one.iter().map(|f| f.name.as_str()).collect();
    let n2: Vec<&str> = two.iter().map(|f| f.name.as_str()).collect();
    assert_eq!(n1, n2);
}

#[test]
fn lookup_found_iff_counted() {
    let guide = RouteGuideService::new(load());
    for p in [pt(407838351, -746143763), pt(1, 1), pt(415301720, -748416257), pt(407838351, 0)] {
        let found = guide.get_feature(&p).location.is_some();
        assert_eq!(found, guide.features_at(&p) > 0);
    }
}

#[test]
fn route_chat_answers_only_same_latitude() {
    let mut chat = RouteChat::new();
    for (i, lat) in [3, 4, 3, 5, 3, 4].iter().enumerate() {
        let answer = chat.receive(note(*lat, i as i32, "m"));
        assert!(answer.iter().all(|n| n.location.unwrap().latitude == *lat));
        assert_eq!(answer.last().unwrap().location, Some(pt(*lat, i as i32)));
    }
}

#[test]
fn list_features_on_empty_db_without_corners() {
    let guide = RouteGuideService::new(Vec::new());
    let res = guide.list_features(&Rectangle { lo: None, hi: None });
    assert!(res.is_empty());
}

#[test]
fn located_prefix_and_partial_listing() {
    let guide = RouteGuideService::new(vec![
        place("in1", 5, 5),
        place("out", 50, 5),
        place("in2", -3, 19),
        Feature { name: "none".to_string(), location: None },
        place("in3", 1, 1),
    ]);
    assert_eq!(guide.located_prefix_len(), 3);
    let res = guide.list_features_before(&rect(pt(10, 20), pt(-10, 0)), 3);
    let names: Vec<&str> = res.iter().map(|f| f.name.as_str()).collect();
    assert_eq!(names, vec!["in1", "in2"]);
    let res = guide.list_features_before(&rect(pt(10, 20), pt(-10, 0)), 1);
    assert_eq!(res.len(), 1);
    let full = RouteGuideService::new(load());
    assert_eq!(full.located_prefix_len(), 19);
    assert!(full.list_features_before(&Rectangle { lo: None, hi: None }, 0).is_empty());
}

#[test]
fn record_route_counts_ignore_point_order() {
    let guide = RouteGuideService::new(vec![place("a", 1, 1), place("b", 1, 1), place("c", 2, 2)]);
    let route = [pt(1, 1), pt(5, 5), pt(2, 2), pt(1, 1)];
    let mut forward = RouteRecorder::new(&guide);
    for p in route {
        forward.record_point(p);
    }
    let mut backward = RouteRecorder::new(&guide);
    for p in route.iter().rev() {
        backward.record_point(*p);
    }
    let f = forward.summary();
    let b = backward.summary();
    assert_eq!(f.point_count, 4);
    assert_eq!(f.feature_count, 5);
    assert_eq!((f.point_count, f.feature_count), (b.point_count, b.feature_count));
}
