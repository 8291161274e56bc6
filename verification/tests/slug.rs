use url_shortener::slug::{gen_slug, SLUG_LEN};

fn is_url_safe(c: char) -> bool {
    c == '_' || c == '-' || c.is_ascii_digit() || c.is_ascii_lowercase() || c.is_ascii_uppercase()
}

#[test]
fn generated_slug_has_ten_url_safe_characters() {
    for _ in 0..200 {
        let slug = gen_slug();
        assert_eq!(slug.chars().count(), 10);
        assert_eq!(slug.chars().count(), SLUG_LEN);
        assert!(slug.chars().all(is_url_safe));
    }
}

#[test]
fn generated_slugs_differ() {
    let a = gen_slug();
    let b = gen_slug();
    let c = gen_slug();
    assert!(a != b || b != c);
}
