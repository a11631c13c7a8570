use ota_update::stager::{Listed, Search, SearchStep};
use std::collections::BTreeMap;

fn file(name: &str) -> Listed {
    Listed { name: name.to_string(), is_dir: false }
}

fn dir(name: &str) -> Listed {
    Listed { name: name.to_string(), is_dir: true }
}

/// Runs a search over a tree given as listings by path; gives what it found
/// and the directories it read, in order.
fn locate(tree: &BTreeMap<&str, Vec<Listed>>, root: &str, wanted: &str) -> (Option<String>, Vec<String>) {
    let mut search = Search::new(root, wanted);
    let mut read = Vec::new();
    loop {
        match search.next() {
            SearchStep::Read(path) => {
                let listing = tree.get(path.as_str()).cloned().unwrap_or_default();
                read.push(path);
                search.supply(listing);
            }
            SearchStep::Found(path) => return (Some(path), read),
            SearchStep::Missing => return (None, read),
        }
    }
}

#[test]
fn the_root_is_read_first() {
    let mut search = Search::new("/w", "tool");
    assert_eq!(search.next(), SearchStep::Read("/w".to_string()));
    search.supply(vec![]);
    assert_eq!(search.next(), SearchStep::Missing);
    assert_eq!(search.next(), SearchStep::Missing);
}

#[test]
fn a_file_in_the_root_is_found() {
    let tree = BTreeMap::from([("/w", vec![file("readme"), file("tool"), file("other")])]);
    assert_eq!(locate(&tree, "/w", "tool"), (Some("/w/tool".to_string()), vec!["/w".to_string()]));
    assert_eq!(locate(&tree, "/w", "absent").0, None);
}

#[test]
fn the_search_goes_depth_first_in_listing_order() {
    let tree = BTreeMap::from([
        ("/w", vec![dir("a"), file("tool"), dir("b")]),
        ("/w/a", vec![dir("deep"), file("x")]),
        ("/w/a/deep", vec![file("tool")]),
        ("/w/b", vec![file("tool")]),
    ]);
    let (found, read) = locate(&tree, "/w", "tool");
    assert_eq!(found, Some("/w/a/deep/tool".to_string()));
    assert_eq!(read, ["/w", "/w/a", "/w/a/deep"]);
}

#[test]
fn a_file_before_a_directory_wins() {
    let tree = BTreeMap::from([
        ("/w", vec![file("tool"), dir("a")]),
        ("/w/a", vec![file("tool")]),
    ]);
    let (found, read) = locate(&tree, "/w", "tool");
    assert_eq!(found, Some("/w/tool".to_string()));
    assert_eq!(read, ["/w"]);
}

#[test]
fn a_directory_of_the_wanted_name_is_no_match() {
    let tree = BTreeMap::from([
        ("/w", vec![dir("tool"), file("x")]),
        ("/w/tool", vec![file("y")]),
    ]);
    let (found, read) = locate(&tree, "/w", "tool");
    assert_eq!(found, None);
    assert_eq!(read, ["/w", "/w/tool"]);
}

#[test]
fn every_directory_is_read_when_nothing_matches() {
    let tree = BTreeMap::from([
        ("/w", vec![dir("a"), dir("b")]),
        ("/w/a", vec![dir("c")]),
        ("/w/a/c", vec![]),
        ("/w/b", vec![file("z")]),
    ]);
    let (found, read) = locate(&tree, "/w", "tool");
    assert_eq!(found, None);
    assert_eq!(read, ["/w", "/w/a", "/w/a/c", "/w/b"]);
}

#[test]
fn the_search_goes_on_behind_a_match() {
    let mut search = Search::new("w", "tool");
    assert_eq!(search.next(), SearchStep::Read("w".to_string()));
    search.supply(vec![file("tool"), dir("a"), file("tool")]);
    assert_eq!(search.next(), SearchStep::Found("w/tool".to_string()));
    assert_eq!(search.next(), SearchStep::Read("w/a".to_string()));
    search.supply(vec![]);
    assert_eq!(search.next(), SearchStep::Found("w/tool".to_string()));
    assert_eq!(search.next(), SearchStep::Missing);
}

#[test]
fn a_listing_that_nobody_asked_for_is_dropped() {
    let mut search = Search::new("w", "tool");
    search.supply(vec![file("tool")]);
    assert_eq!(search.next(), SearchStep::Read("w".to_string()));
    search.supply(vec![]);
    search.supply(vec![file("tool")]);
    assert_eq!(search.next(), SearchStep::Missing);
}

#[test]
fn a_deep_tree_costs_no_call_stack() {
    let depth = 2000;
    let mut names = Vec::new();
    let mut path = "/w".to_string();
    for i in 0..depth {
        names.push((path.clone(), format!("d{i}")));
        path = format!("{path}/d{i}");
    }
    let mut search = Search::new("/w", "tool");
    let mut level = 0;
    let found = loop {
        match search.next() {
            SearchStep::Read(p) => {
                if level < depth {
                    assert_eq!(p, names[level].0);
                    search.supply(vec![dir(&names[level].1)]);
                    level += 1;
                } else {
                    search.supply(vec![file("tool")]);
                }
            }
            SearchStep::Found(p) => break Some(p),
            SearchStep::Missing => break None,
        }
    };
    assert_eq!(found, Some(format!("{path}/tool")));
}
