use swagger::composites::{assemble, starts_with};
use swagger::{CompositeMakeService, CompositeService};

#[test]
fn first_matching_prefix_wins() {
    let mut c = CompositeService::new();
    c.push("/a", "H1");
    c.push("/ab", "H2");
    assert_eq!(c.route("/ab/x"), Some(0));
    assert_eq!(c.services()[0].1, "H1");
}

#[test]
fn no_matching_prefix_is_not_found() {
    let mut c = CompositeService::new();
    c.push("/a", 1);
    c.push("/ab", 2);
    assert_eq!(c.route("/zzz"), None);
}

#[test]
fn later_entry_serves_its_own_paths() {
    let mut c = CompositeService::new();
    c.push("/ab", 1);
    c.push("/a", 2);
    assert_eq!(c.route("/ab/x"), Some(0));
    assert_eq!(c.route("/ax"), Some(1));
    *c.service_mut(1) = 5;
    assert_eq!(c.services()[1], ("/a", 5));
    assert_eq!(c.len(), 2);
}

#[test]
fn prefix_test_is_bytewise() {
    assert!(starts_with("/api/v1", "/api"));
    assert!(starts_with("/api", ""));
    assert!(!starts_with("/ap", "/api"));
    assert!(!starts_with("/API", "/api"));
}

#[test]
fn assemble_keeps_order() {
    let r: Result<CompositeService<u32>, String> = assemble(vec![("/a", Ok(1)), ("/b", Ok(2))]);
    let c = r.unwrap();
    assert_eq!(c.services(), &vec![("/a", 1), ("/b", 2)]);
}

#[test]
fn assemble_fails_with_first_failure() {
    let r: Result<CompositeService<u32>, String> = assemble(vec![
        ("/a", Ok(1)),
        ("/b", Err("b failed".to_string())),
        ("/c", Err("c failed".to_string())),
    ]);
    assert_eq!(r.unwrap_err(), "b failed");
}

#[test]
fn make_service_holds_factories() {
    let mut m = CompositeMakeService::new();
    m.push("/x", 10u8);
    m.push("/y", 20u8);
    *m.factory_mut(0) = 11;
    assert_eq!(m.factories(), &vec![("/x", 11u8), ("/y", 20u8)]);
    assert_eq!(m.len(), 2);
}
