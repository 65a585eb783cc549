use wv::findbar::FindAction;
use wv::findbar::on_search_activate;
use wv::findbar::on_search_changed;

#[test]
fn repeated_query_moves_to_the_next_match() {
    let query = String::from("needle");
    let active = String::from("needle");
    assert_eq!(
        on_search_activate(&query, Some(&active)),
        FindAction::SearchNext
    );
}

#[test]
fn changed_query_starts_a_fresh_search() {
    let query = String::from("needle");
    let active = String::from("haystack");
    assert_eq!(
        on_search_activate(&query, Some(&active)),
        FindAction::StartSearch
    );
}

#[test]
fn first_query_starts_a_search() {
    let query = String::from("needle");
    assert_eq!(on_search_activate(&query, None), FindAction::StartSearch);
}

#[test]
fn emptied_entry_finishes_the_search() {
    assert_eq!(on_search_changed(&String::new()), FindAction::FinishSearch);
}

#[test]
fn edited_entry_searches_at_once() {
    assert_eq!(
        on_search_changed(&String::from("n")),
        FindAction::StartSearch
    );
}
