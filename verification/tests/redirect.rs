use url_shortener::error::UrlErr;
use url_shortener::models::Url;
use url_shortener::redirect::Resolution;
use url_shortener::store::{Query, Reply};

fn mapping(slug: &str, url: &str, count: i32) -> Url {
    Url { slug: slug.to_string(), url: url.to_string(), author_ip: "10.0.0.1".to_string(), usage_count: count }
}

/// Answers as a store in order does, over one mapping.
fn serve(held: &mut Url, query: Query) -> Reply {
    match query {
        Query::Find(slug) => {
            if slug == held.slug {
                Reply::Rows(vec![held.clone()])
            } else {
                Reply::Rows(vec![])
            }
        }
        Query::Insert(_) => Reply::Duplicate,
        Query::Bump(slug) => {
            if slug == held.slug {
                held.usage_count += 1;
            }
            Reply::Done
        }
    }
}

fn step(held: &mut Url, r: Resolution) -> Resolution {
    let reply = match r.query() {
        Some(q) => serve(held, q),
        None => return r,
    };
    r.advance(reply)
}

#[test]
fn resolution_finds_then_counts() {
    let r = Resolution::begin("abc123".to_string());
    assert_eq!(r.query(), Some(Query::Find("abc123")));
    assert!(!r.lost_count());
    let r = r.advance(Reply::Rows(vec![mapping("abc123", "https://example.com", 4)]));
    assert_eq!(r.query(), Some(Query::Bump("abc123")));
    assert!(!r.lost_count());
    let r = r.advance(Reply::Done);
    assert_eq!(r.query(), None);
    assert!(!r.lost_count());
    assert_eq!(r.outcome().unwrap().unwrap(), "https://example.com");
}

#[test]
fn resolution_without_a_mapping_is_not_found() {
    let r = Resolution::begin("missing99".to_string()).advance(Reply::Rows(vec![]));
    assert_eq!(r.query(), None);
    assert!(!r.lost_count());
    assert!(matches!(r.outcome(), Some(Err(UrlErr::NotFound))));
}

#[test]
fn failed_lookup_is_a_store_error() {
    for reply in [Reply::Failed, Reply::Done, Reply::Duplicate] {
        let r = Resolution::begin("abc123".to_string()).advance(reply);
        assert_eq!(r.query(), None);
        assert!(matches!(r.outcome(), Some(Err(UrlErr::DBError))));
    }
}

#[test]
fn destination_does_not_depend_on_the_count() {
    for reply in [Reply::Failed, Reply::Duplicate, Reply::Rows(vec![])] {
        let r = Resolution::begin("abc123".to_string())
            .advance(Reply::Rows(vec![mapping("abc123", "https://example.com", 4)]))
            .advance(reply);
        assert_eq!(r.query(), None);
        assert!(r.lost_count());
        assert_eq!(r.outcome().unwrap().unwrap(), "https://example.com");
    }
}

#[test]
fn unfinished_resolution_has_no_outcome() {
    assert!(Resolution::begin("abc123".to_string()).outcome().is_none());
    let r = Resolution::begin("abc123".to_string())
        .advance(Reply::Rows(vec![mapping("abc123", "https://example.com", 4)]));
    assert!(r.outcome().is_none());
}

#[test]
fn finished_resolution_stays_finished() {
    let r = Resolution::begin("abc123".to_string())
        .advance(Reply::Rows(vec![mapping("abc123", "https://example.com", 4)]))
        .advance(Reply::Done)
        .advance(Reply::Failed)
        .advance(Reply::Rows(vec![mapping("abc123", "https://other.example", 9)]));
    assert!(!r.lost_count());
    assert_eq!(r.outcome().unwrap().unwrap(), "https://example.com");
}

#[test]
fn first_row_decides_the_destination() {
    let r = Resolution::begin("abc123".to_string()).advance(Reply::Rows(vec![
        mapping("abc123", "https://first.example", 1),
        mapping("abc123", "https://second.example", 2),
    ]));
    let r = r.advance(Reply::Done);
    assert_eq!(r.outcome().unwrap().unwrap(), "https://first.example");
}

#[test]
fn every_resolution_counts_once() {
    let mut held = mapping("abc123", "https://example.com", 7);
    for n in 1..=5 {
        let mut r = Resolution::begin("abc123".to_string());
        while r.query().is_some() {
            r = step(&mut held, r);
        }
        assert_eq!(r.outcome().unwrap().unwrap(), "https://example.com");
        assert_eq!(held.usage_count, 7 + n);
    }
    assert_eq!(held, mapping("abc123", "https://example.com", 12));
}

#[test]
fn interleaved_resolutions_count_once_each() {
    let mut held = mapping("abc123", "https://example.com", 0);
    let n = 8;
    let mut under_way: Vec<Option<Resolution>> =
        (0..n).map(|_| Some(Resolution::begin("abc123".to_string()))).collect();
    for round in 0..2 {
        for k in 0..n {
            let who = if round == 0 { k } else { n - 1 - k };
            let r = under_way[who].take().unwrap();
            under_way[who] = Some(step(&mut held, r));
        }
        if round == 0 {
            assert_eq!(held.usage_count, 0);
        }
    }
    for r in under_way {
        let r = r.unwrap();
        assert!(!r.lost_count());
        assert_eq!(r.outcome().unwrap().unwrap(), "https://example.com");
    }
    assert_eq!(held, mapping("abc123", "https://example.com", 8));
}
