use hackertuah::feed::{ids_to_fetch, item_url, listing_arrived, start, Retrieval, STORY_LIMIT};
use hackertuah::orchestrator::FetchOutcome;
use hackertuah::section::Section;
use hackertuah::story::Story;

fn fetched(id: u32) -> Story {
    Story {
        id,
        title: format!("story {}", id),
        url: None,
        text: None,
        by: "x".to_string(),
        score: id as i32,
    }
}

#[test]
fn retrieval_starts_with_the_listing() {
    assert_eq!(start(Section::Ask), "https://hacker-news.firebaseio.com/v0/askstories.json");
    assert_eq!(start(Section::Top), "https://hacker-news.firebaseio.com/v0/topstories.json");
}

#[test]
fn item_addresses() {
    assert_eq!(item_url(0), "https://hacker-news.firebaseio.com/v0/item/0.json");
    assert_eq!(item_url(9), "https://hacker-news.firebaseio.com/v0/item/9.json");
    assert_eq!(item_url(10), "https://hacker-news.firebaseio.com/v0/item/10.json");
    assert_eq!(item_url(8863), "https://hacker-news.firebaseio.com/v0/item/8863.json");
    assert_eq!(
        item_url(u32::MAX),
        "https://hacker-news.firebaseio.com/v0/item/4294967295.json"
    );
}

#[test]
fn at_most_a_hundred_identifiers_are_fetched() {
    assert_eq!(STORY_LIMIT, 100);
    assert_eq!(ids_to_fetch(&vec![]), Vec::<u32>::new());
    assert_eq!(ids_to_fetch(&vec![5, 3, 8]), vec![5, 3, 8]);
    let exact: Vec<u32> = (0..100).collect();
    assert_eq!(ids_to_fetch(&exact), exact);
    let long: Vec<u32> = (1000..1500).collect();
    assert_eq!(ids_to_fetch(&long), (1000..1100).collect::<Vec<u32>>());
}

#[test]
fn failed_listing_fails_the_retrieval() {
    match listing_arrived(Err("dns".to_string())) {
        Retrieval::Done(FetchOutcome::Failed(r)) => assert_eq!(r, "dns"),
        _ => panic!("the listing failed"),
    }
}

#[test]
fn empty_listing_is_an_empty_list() {
    match listing_arrived(Ok(vec![])) {
        Retrieval::Done(FetchOutcome::Ready(items)) => assert!(items.is_empty()),
        _ => panic!("there is nothing to fetch"),
    }
}

#[test]
fn stories_are_fetched_in_listing_order() {
    let mut next = listing_arrived(Ok(vec![30, 10, 20]));
    let mut asked = Vec::new();
    let mut guard = 0;
    let items = loop {
        guard += 1;
        assert!(guard < 10);
        match next {
            Retrieval::Get(collector, url) => {
                assert_eq!(collector.remaining(), 3 - asked.len());
                let id: u32 = url
                    .trim_start_matches("https://hacker-news.firebaseio.com/v0/item/")
                    .trim_end_matches(".json")
                    .parse()
                    .unwrap();
                asked.push(id);
                next = collector.item_arrived(Ok(fetched(id)));
            }
            Retrieval::Done(FetchOutcome::Ready(items)) => break items,
            Retrieval::Done(FetchOutcome::Failed(_)) => panic!("nothing failed"),
        }
    };
    assert_eq!(asked, vec![30, 10, 20]);
    assert_eq!(items.iter().map(|s| s.id).collect::<Vec<u32>>(), vec![30, 10, 20]);
    assert_eq!(items[1].title, "story 10");
}

#[test]
fn long_listing_ends_after_a_hundred_stories() {
    let listing: Vec<u32> = (1..=250).collect();
    let mut next = listing_arrived(Ok(listing));
    let mut requests = 0;
    let items = loop {
        match next {
            Retrieval::Get(collector, url) => {
                requests += 1;
                assert!(requests <= 100);
                assert_eq!(url, item_url(requests));
                next = collector.item_arrived(Ok(fetched(requests)));
            }
            Retrieval::Done(FetchOutcome::Ready(items)) => break items,
            Retrieval::Done(FetchOutcome::Failed(_)) => panic!("nothing failed"),
        }
    };
    assert_eq!(requests, 100);
    assert_eq!(items.len(), 100);
    assert_eq!(items[99].id, 100);
}

#[test]
fn one_failed_story_fails_the_whole_retrieval() {
    let next = listing_arrived(Ok(vec![1, 2, 3]));
    let next = match next {
        Retrieval::Get(c, _) => c.item_arrived(Ok(fetched(1))),
        _ => panic!("a story is asked for"),
    };
    let next = match next {
        Retrieval::Get(c, url) => {
            assert_eq!(url, "https://hacker-news.firebaseio.com/v0/item/2.json");
            c.item_arrived(Err("malformed payload".to_string()))
        }
        _ => panic!("a story is asked for"),
    };
    match next {
        Retrieval::Done(FetchOutcome::Failed(r)) => assert_eq!(r, "malformed payload"),
        _ => panic!("the retrieval failed"),
    }
}
