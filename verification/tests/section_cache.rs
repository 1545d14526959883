use hackertuah::cache::SectionCache;
use hackertuah::section::{Section, SECTION_COUNT};
use hackertuah::story::{clone_stories, Story};

fn entry(id: u32, title: &str, url: Option<&str>) -> Story {
    Story {
        id,
        title: title.to_string(),
        url: url.map(|u| u.to_string()),
        text: Some("body".to_string()),
        by: "pg".to_string(),
        score: -3,
    }
}

#[test]
fn section_names() {
    assert_eq!(Section::Top.as_str(), "Top");
    assert_eq!(Section::Ask.as_str(), "Ask");
    assert_eq!(Section::Show.as_str(), "Show");
    assert_eq!(Section::Jobs.as_str(), "Jobs");
}

#[test]
fn section_listing_addresses() {
    assert_eq!(
        Section::Top.get_api_url(),
        "https://hacker-news.firebaseio.com/v0/topstories.json"
    );
    assert_eq!(
        Section::Ask.get_api_url(),
        "https://hacker-news.firebaseio.com/v0/askstories.json"
    );
    assert_eq!(
        Section::Show.get_api_url(),
        "https://hacker-news.firebaseio.com/v0/showstories.json"
    );
    assert_eq!(
        Section::Jobs.get_api_url(),
        "https://hacker-news.firebaseio.com/v0/jobstories.json"
    );
}

#[test]
fn section_order_and_rotation() {
    let all = Section::all();
    assert_eq!(all, vec![Section::Top, Section::Ask, Section::Show, Section::Jobs]);
    assert_eq!(all.len(), SECTION_COUNT);
    for (i, s) in all.iter().enumerate() {
        assert_eq!(s.index(), i);
        assert_eq!(s.next().previous(), *s);
        assert_eq!(s.previous().next(), *s);
    }
    assert_eq!(Section::Jobs.next(), Section::Top);
    assert_eq!(Section::Top.previous(), Section::Jobs);
    assert_eq!(Section::Top.next(), Section::Ask);
    assert_eq!(Section::Show.previous(), Section::Ask);
}

#[test]
fn cache_starts_empty() {
    let cache = SectionCache::new();
    for s in Section::all() {
        assert!(cache.get(s).is_none());
        assert!(!cache.contains(s));
        assert!(cache.get_cloned(s).is_none());
    }
}

#[test]
fn cache_put_replaces_one_entry_whole() {
    let mut cache = SectionCache::new();
    cache.put(Section::Top, vec![entry(1, "a", None), entry(2, "b", Some("http://b"))]);
    cache.put(Section::Jobs, vec![entry(3, "c", None)]);
    assert_eq!(cache.get(Section::Top).unwrap().len(), 2);
    cache.put(Section::Top, vec![entry(4, "d", None)]);
    let top = cache.get(Section::Top).unwrap();
    assert_eq!(top.len(), 1);
    assert_eq!(top[0].id, 4);
    assert_eq!(top[0].title, "d");
    let jobs = cache.get(Section::Jobs).unwrap();
    assert_eq!(jobs.len(), 1);
    assert_eq!(jobs[0].id, 3);
    assert!(!cache.contains(Section::Ask));
    assert!(!cache.contains(Section::Show));
}

#[test]
fn cache_hands_out_equal_copies() {
    let mut cache = SectionCache::new();
    cache.put(Section::Ask, vec![entry(1, "a", Some("http://a"))]);
    let copy = cache.get_cloned(Section::Ask).unwrap();
    assert_eq!(copy.len(), 1);
    assert_eq!(copy[0].id, 1);
    assert_eq!(copy[0].title, "a");
    assert_eq!(copy[0].url.as_deref(), Some("http://a"));
    assert_eq!(copy[0].text.as_deref(), Some("body"));
    assert_eq!(copy[0].by, "pg");
    assert_eq!(copy[0].score, -3);
}

#[test]
fn stories_are_cloned_field_by_field() {
    let source = vec![entry(10, "x", None), entry(11, "y", Some("http://y"))];
    let copy = clone_stories(&source);
    assert_eq!(copy.len(), 2);
    for (a, b) in source.iter().zip(copy.iter()) {
        assert_eq!(a.id, b.id);
        assert_eq!(a.title, b.title);
        assert_eq!(a.url, b.url);
        assert_eq!(a.text, b.text);
        assert_eq!(a.by, b.by);
        assert_eq!(a.score, b.score);
    }
    let one = source[1].clone();
    assert_eq!(one.url.as_deref(), Some("http://y"));
}
