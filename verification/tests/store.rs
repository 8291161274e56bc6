use url_shortener::models::{NewUrl, Url};
use url_shortener::store::{Query, Reply};

fn row(slug: &str, url: &str, count: i32) -> Url {
    Url { slug: slug.to_string(), url: url.to_string(), author_ip: "10.0.0.1".to_string(), usage_count: count }
}

#[test]
fn only_an_empty_answer_leaves_the_slug_free() {
    assert!(Reply::Rows(vec![]).is_free());
    assert!(!Reply::Rows(vec![row("a", "https://a.example", 0)]).is_free());
    assert!(!Reply::Failed.is_free());
    assert!(!Reply::Done.is_free());
    assert!(!Reply::Duplicate.is_free());
}

#[test]
fn first_row_of_an_answer() {
    assert_eq!(Reply::Rows(vec![]).into_first(), None);
    assert_eq!(Reply::Failed.into_first(), None);
    assert_eq!(Reply::Done.into_first(), None);
    assert_eq!(Reply::Duplicate.into_first(), None);
    assert_eq!(
        Reply::Rows(vec![row("a", "https://a.example", 3)]).into_first(),
        Some(row("a", "https://a.example", 3))
    );
    assert_eq!(
        Reply::Rows(vec![
            row("a", "https://a.example", 3),
            row("b", "https://b.example", 4),
            row("c", "https://c.example", 5),
        ])
        .into_first(),
        Some(row("a", "https://a.example", 3))
    );
}

#[test]
fn fresh_mapping_has_no_use() {
    let new = NewUrl::fresh("abc123", "https://example.com", "10.0.0.1");
    assert_eq!(new.slug, "abc123");
    assert_eq!(new.url, "https://example.com");
    assert_eq!(new.author_ip, "10.0.0.1");
    assert_eq!(new.usage_count, 0);
    assert_eq!(Query::Insert(new.clone()), Query::Insert(new));
}
