use blackforge::browse::{descending_order, found_text, hits_of, Found, Searches, Sort};

fn found(id: &str, downloads: u64) -> Found {
    Found {
        id: id.to_owned(),
        version: "1.0.0".to_owned(),
        downloads,
        description: "  a   mod ".to_owned(),
        page_url: format!("https://thunderstore.io/{id}"),
        deprecated: false,
        broken: id == "C-c",
    }
}

#[test]
fn most_downloads_first_ties_in_their_order() {
    assert_eq!(descending_order(&vec![5, 9, 5, 1, 9]), vec![1, 4, 0, 2, 3]);
    assert_eq!(descending_order(&vec![]), Vec::<usize>::new());
}

#[test]
fn best_match_keeps_the_order_of_the_list() {
    let list = vec![found("A-a", 10), found("B-b", 2_500), found("C-c", 900)];
    let installed = vec!["B-b".to_owned()];
    let (hits, total) = hits_of(&list, &installed, Sort::BestMatch);
    assert_eq!(total, 3);
    let ids: Vec<&str> = hits.iter().map(|h| h.id.as_str()).collect();
    assert_eq!(ids, vec!["A-a", "B-b", "C-c"]);
    assert!(hits[1].installed && !hits[0].installed);
    assert_eq!(hits[1].downloads, "2.5K");
    assert_eq!(hits[0].description, "a mod");
    assert!(hits[2].broken);
}

#[test]
fn downloads_sort_descends() {
    let list = vec![found("A-a", 10), found("B-b", 2_500), found("C-c", 10)];
    let (hits, _) = hits_of(&list, &vec![], Sort::Downloads);
    let ids: Vec<&str> = hits.iter().map(|h| h.id.as_str()).collect();
    assert_eq!(ids, vec!["B-b", "A-a", "C-c"]);
}

#[test]
fn at_most_two_hundred_rows() {
    let list: Vec<Found> = (0..250).map(|n| found(&format!("O-m{n}"), n)).collect();
    let (hits, total) = hits_of(&list, &vec![], Sort::Downloads);
    assert_eq!(total, 250);
    assert_eq!(hits.len(), 200);
    assert_eq!(hits[0].id, "O-m249");
    assert_eq!(found_text(total, hits.len()), "250 packages, the first 200 are shown");
    assert_eq!(found_text(3, 3), "3 packages");
}

#[test]
fn only_the_newest_search_counts() {
    let mut searches = Searches { query: 0 };
    let first = searches.start();
    let second = searches.start();
    assert!(!searches.current(first));
    assert!(searches.current(second));
    assert_eq!(Sort::BestMatch.to_label(), "best match");
    assert_eq!(Sort::Downloads.to_label(), "downloads");
}
