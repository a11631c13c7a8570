//! Finding a binary in an unpacked archive: a depth-first search that asks
//! for one directory listing at a time and keeps its own worklist, so that
//! the depth of the tree costs no call stack.

use crate::paths::{join, joined};
use vstd::prelude::*;

verus! {

/// One line of a directory listing: a name, and whether it names a directory.
#[derive(Clone, Debug, PartialEq, Eq)]
pub struct Listed {
    pub name: String,
    pub is_dir: bool,
}

/// A line of a listing as plain values.
pub struct ListedModel {
    pub name: Seq<char>,
    pub is_dir: bool,
}

impl View for Listed {
    type V = ListedModel;

    open spec fn view(&self) -> ListedModel {
        ListedModel { name: self.name@, is_dir: self.is_dir }
    }
}

/// Something that the search has seen in a listing and not yet looked at.
pub struct Entry {
    pub path: String,
    pub name: String,
    pub is_dir: bool,
}

/// An entry as plain values.
pub struct EntryModel {
    pub path: Seq<char>,
    pub name: Seq<char>,
    pub is_dir: bool,
}

impl View for Entry {
    type V = EntryModel;

    open spec fn view(&self) -> EntryModel {
        EntryModel { path: self.path@, name: self.name@, is_dir: self.is_dir }
    }
}

/// What the search does next.
#[derive(Clone, Debug, PartialEq, Eq)]
pub enum SearchStep {
    /// The listing of this directory is wanted.
    Read(String),
    /// The file is here.
    Found(String),
    /// Nothing is left to look at.
    Missing,
}

/// A step as plain values.
pub enum StepModel {
    Read(Seq<char>),
    Found(Seq<char>),
    Missing,
}

impl View for SearchStep {
    type V = StepModel;

    open spec fn view(&self) -> StepModel {
        match self {
            SearchStep::Read(p) => StepModel::Read(p@),
            SearchStep::Found(p) => StepModel::Found(p@),
            SearchStep::Missing => StepModel::Missing,
        }
    }
}

/// The entries of the listing of `dir`, in the order of the listing.
pub open spec fn entries_of(dir: Seq<char>, listing: Seq<ListedModel>) -> Seq<EntryModel> {
    Seq::new(
        listing.len(),
        |i: int|
            EntryModel {
                path: joined(dir, listing[i].name),
                name: listing[i].name,
                is_dir: listing[i].is_dir,
            },
    )
}

/// Takes entries from the end of the worklist until one decides the step: a
/// directory is read next, a file of the wanted name is found, any other file
/// is passed over. The step comes with what is left of the worklist.
pub open spec fn scan(pending: Seq<EntryModel>, wanted: Seq<char>) -> (StepModel, Seq<EntryModel>)
    decreases pending.len(),
{
    if pending.len() == 0 {
        (StepModel::Missing, pending)
    } else {
        let e = pending.last();
        if e.is_dir {
            (StepModel::Read(e.path), pending.drop_last())
        } else if e.name == wanted {
            (StepModel::Found(e.path), pending.drop_last())
        } else {
            scan(pending.drop_last(), wanted)
        }
    }
}

/// The state of a search as plain values.
pub struct SearchModel {
    pub wanted: Seq<char>,
    /// The worklist; its last entry is looked at first.
    pub pending: Seq<EntryModel>,
    /// The directory whose listing was asked for and has not come yet.
    pub reading: Option<Seq<char>>,
}

/// A search for a file name below a directory.
pub struct Search {
    wanted: String,
    pending: Vec<Entry>,
    reading: Option<String>,
}

impl View for Search {
    type V = SearchModel;

    closed spec fn view(&self) -> SearchModel {
        SearchModel {
            wanted: self.wanted@,
            pending: self.pending@.map_values(|e: Entry| e@),
            reading: match self.reading {
                Some(d) => Some(d@),
                None => None,
            },
        }
    }
}

impl Search {
    /// A search for `wanted` below `root`, which is the first directory to
    /// be read.
    pub fn new(root: &str, wanted: &str) -> (s: Search)
        ensures
            s@.wanted == wanted@,
            s@.pending == seq![
                EntryModel { path: root@, name: Seq::<char>::empty(), is_dir: true },
            ],
            s@.reading is None,
    {
        let mut pending: Vec<Entry> = Vec::new();
        pending.push(Entry { path: String::from_str(root), name: String::new(), is_dir: true });
        let s = Search { wanted: String::from_str(wanted), pending, reading: None };
        assert(s@.pending =~= seq![
            EntryModel { path: root@, name: Seq::<char>::empty(), is_dir: true },
        ]);
        s
    }

    /// Decides the next step. A directory that is to be read is remembered
    /// until its listing is supplied.
    pub fn next(&mut self) -> (step: SearchStep)
        ensures
            step@ == scan(old(self)@.pending, old(self)@.wanted).0,
            final(self)@.pending == scan(old(self)@.pending, old(self)@.wanted).1,
            final(self)@.wanted == old(self)@.wanted,
            final(self)@.reading == (match step@ {
                StepModel::Read(d) => Some(d),
                _ => None,
            }),
    {
        self.reading = None;
        loop
            invariant
                self.wanted@ == old(self).wanted@,
                self.reading is None,
                scan(self@.pending, self@.wanted) == scan(old(self)@.pending, old(self)@.wanted),
            decreases self.pending.len(),
        {
            let ghost before = self@.pending;
            match self.pending.pop() {
                None => {
                    return SearchStep::Missing;
                },
                Some(e) => {
                    assert(self@.pending =~= before.drop_last());
                    assert(before.last() == e@);
                    if e.is_dir {
                        let Entry { path, name: _, is_dir: _ } = e;
                        self.reading = Some(path.clone());
                        return SearchStep::Read(path);
                    } else if e.name == self.wanted {
                        let Entry { path, name: _, is_dir: _ } = e;
                        return SearchStep::Found(path);
                    }
                },
            }
        }
    }

    /// Takes the listing of the directory that was to be read: its entries go
    /// on the worklist so that the first of them is looked at first, before
    /// anything that was there already. Without a directory to be read the
    /// listing is dropped.
    pub fn supply(&mut self, listing: Vec<Listed>)
        ensures
            final(self)@.wanted == old(self)@.wanted,
            final(self)@.reading is None,
            final(self)@.pending == (match old(self)@.reading {
                Some(dir) => old(self)@.pending + entries_of(
                    dir,
                    listing@.map_values(|l: Listed| l@),
                ).reverse(),
                None => old(self)@.pending,
            }),
    {
        let dir = match self.reading.take() {
            Some(d) => d,
            None => {
                return ;
            },
        };
        let ghost base = self@.pending;
        let ghost lines = listing@.map_values(|l: Listed| l@);
        let ghost all = entries_of(dir@, lines);
        let mut listing = listing;
        let mut k: usize = listing.len();
        while k > 0
            invariant
                k == listing.len(),
                k <= lines.len(),
                listing@.map_values(|l: Listed| l@) == lines.subrange(0, k as int),
                self.wanted@ == old(self).wanted@,
                self.reading is None,
                all == entries_of(dir@, lines),
                self@.pending == base + all.subrange(k as int, lines.len() as int).reverse(),
            decreases k,
        {
            let ghost before = self@.pending;
            let ghost lines_before = listing@.map_values(|l: Listed| l@);
            let line = listing.pop().unwrap();
            k -= 1;
            let path = join(dir.as_str(), line.name.as_str());
            let Listed { name, is_dir } = line;
            self.pending.push(Entry { path, name, is_dir });
            proof {
                assert(listing@.map_values(|l: Listed| l@) =~= lines_before.drop_last());
                assert(lines_before.drop_last() =~= lines.subrange(0, k as int));
                assert(lines_before.last() == line@);
                assert(lines_before.last() == lines[k as int]);
                assert(self@.pending =~= before.push(all[k as int]));
                assert(all.subrange(k as int, lines.len() as int).reverse() =~= all.subrange(
                    k + 1,
                    lines.len() as int,
                ).reverse().push(all[k as int]));
            }
        }
        assert(all.subrange(0, lines.len() as int) =~= all);
    }
}


/// What lies in a directory: files and directories, each with its name.
pub enum Tree {
    File { name: Seq<char> },
    Dir { name: Seq<char>, children: Seq<Tree> },
}

impl Tree {
    /// The name of a file or directory.
    pub open spec fn name(self) -> Seq<char> {
        match self {
            Tree::File { name } => name,
            Tree::Dir { name, .. } => name,
        }
    }

    /// The line that a listing has for a file or directory.
    pub open spec fn line(self) -> ListedModel {
        ListedModel { name: self.name(), is_dir: self is Dir }
    }
}

/// The listing of a directory that holds `children`.
pub open spec fn lines(children: Seq<Tree>) -> Seq<ListedModel> {
    Seq::new(children.len(), |i: int| children[i].line())
}

/// Depth-first search: the first file named `wanted` among `children`, which
/// lie in `dir`, where a directory is searched to its end before what
/// follows it in the listing is looked at.
pub open spec fn found_below(dir: Seq<char>, children: Seq<Tree>, wanted: Seq<char>) -> Option<
    Seq<char>,
>
    decreases children,
{
    if children.len() == 0 {
        None
    } else {
        let here = match children[0] {
            Tree::File { name } => if name == wanted {
                Some(joined(dir, name))
            } else {
                None
            },
            Tree::Dir { name, children: below } => found_below(joined(dir, name), below, wanted),
        };
        match here {
            Some(p) => Some(p),
            None => found_below(dir, children.subrange(1, children.len() as int), wanted),
        }
    }
}

/// An entry of the worklist together with what lies there.
pub struct Item {
    pub path: Seq<char>,
    pub node: Tree,
}

impl Item {
    /// The entry that the worklist holds for the item.
    pub open spec fn entry(self) -> EntryModel {
        EntryModel { path: self.path, name: self.node.name(), is_dir: self.node is Dir }
    }

    /// What depth-first search finds at the item.
    pub open spec fn found(self, wanted: Seq<char>) -> Option<Seq<char>> {
        match self.node {
            Tree::File { name } => if name == wanted {
                Some(self.path)
            } else {
                None
            },
            Tree::Dir { children, .. } => found_below(self.path, children, wanted),
        }
    }
}

/// The items that lie in `dir`, in the order of the listing.
pub open spec fn items_below(dir: Seq<char>, children: Seq<Tree>) -> Seq<Item> {
    Seq::new(
        children.len(),
        |i: int| Item { path: joined(dir, children[i].name()), node: children[i] },
    )
}

/// The worklist that holds these items.
pub open spec fn entries(items: Seq<Item>) -> Seq<EntryModel> {
    Seq::new(items.len(), |i: int| items[i].entry())
}

/// What depth-first search finds on a worklist: the items are searched from
/// the last to the first.
pub open spec fn found_on(items: Seq<Item>, wanted: Seq<char>) -> Option<Seq<char>>
    decreases items.len(),
{
    if items.len() == 0 {
        None
    } else {
        match items.last().found(wanted) {
            Some(p) => Some(p),
            None => found_on(items.drop_last(), wanted),
        }
    }
}

/// With the items of a directory put on a worklist, the first of them on
/// top, the directory is searched before what was on the worklist.
proof fn lemma_directory_is_searched_first(
    items: Seq<Item>,
    dir: Seq<char>,
    children: Seq<Tree>,
    wanted: Seq<char>,
)
    ensures
        found_on(items + items_below(dir, children).reverse(), wanted) == (match found_below(
            dir,
            children,
            wanted,
        ) {
            Some(p) => Some(p),
            None => found_on(items, wanted),
        }),
    decreases children.len(),
{
    let all = items + items_below(dir, children).reverse();
    if children.len() == 0 {
        assert(all =~= items);
    } else {
        let rest = children.subrange(1, children.len() as int);
        let first = Item { path: joined(dir, children[0].name()), node: children[0] };
        assert(all.last() == first);
        assert(all.drop_last() =~= items + items_below(dir, rest).reverse());
        lemma_directory_is_searched_first(items, dir, rest, wanted);
    }
}

/// The search is depth-first. Take a worklist whose entries are paired with
/// what lies there. Where the search ends, it ends with what depth-first
/// search finds on the worklist. Where it reads a directory, that directory
/// is the item it stopped at, and with the true listing supplied, depth-first
/// search finds on the new worklist what it found on the old one.
pub proof fn law_search_is_depth_first(items: Seq<Item>, wanted: Seq<char>)
    ensures
        match scan(entries(items), wanted).0 {
            StepModel::Missing => found_on(items, wanted) is None,
            StepModel::Found(p) => found_on(items, wanted) == Some(p),
            StepModel::Read(d) => {
                let k = scan(entries(items), wanted).1.len() as int;
                &&& k < items.len()
                &&& scan(entries(items), wanted).1 == entries(items.subrange(0, k))
                &&& items[k].path == d
                &&& items[k].node is Dir
                &&& scan(entries(items), wanted).1 + entries_of(
                    d,
                    lines(items[k].node->children),
                ).reverse() == entries(
                    items.subrange(0, k) + items_below(d, items[k].node->children).reverse(),
                )
                &&& found_on(
                    items.subrange(0, k) + items_below(d, items[k].node->children).reverse(),
                    wanted,
                ) == found_on(items, wanted)
            },
        },
    decreases items.len(),
{
    if items.len() > 0 {
        let top = items.last();
        let below = items.drop_last();
        assert(entries(items).last() == top.entry());
        assert(entries(items).drop_last() =~= entries(below));
        match top.node {
            Tree::Dir { name, children } => {
                let k = below.len() as int;
                assert(items.subrange(0, k) =~= below);
                lemma_directory_is_searched_first(below, top.path, children, wanted);
                assert(entries(below) + entries_of(top.path, lines(children)).reverse()
                    =~= entries(below + items_below(top.path, children).reverse()));
            },
            Tree::File { name } => {
                if name != wanted {
                    law_search_is_depth_first(below, wanted);
                    let k = scan(entries(below), wanted).1.len() as int;
                    if scan(entries(below), wanted).0 is Read {
                        assert(below.subrange(0, k) =~= items.subrange(0, k));
                    }
                }
            },
        }
    }
}

/// A search below a directory begins with what depth-first search of the
/// directory finds.
pub proof fn law_search_begins_at_the_root(root: Seq<char>, children: Seq<Tree>, wanted: Seq<char>)
    ensures
        found_on(
            seq![Item { path: root, node: Tree::Dir { name: Seq::<char>::empty(), children } }],
            wanted,
        ) == found_below(root, children, wanted),
{
    let item = Item { path: root, node: Tree::Dir { name: Seq::<char>::empty(), children } };
    let items = seq![item];
    assert(items.last() == item);
    assert(items.drop_last().len() == 0);
    assert(found_on(items.drop_last(), wanted) is None);
    assert(item.found(wanted) == found_below(root, children, wanted));
}

} // verus!
