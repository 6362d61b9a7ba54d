//! The file tree of one torrent, as an arena: directories and files in two
//! lists, each entry naming its parent directory by position. Directory 0
//! is the root. A file's position in its list is its id.

use vstd::prelude::*;
use vstd::string::*;
use crate::messages::{FileEntry, Priority, TorrentInfo};

verus! {

/// The segments of a path: the pieces between its slashes. A path without
/// a slash is one segment; so is the empty path.
pub open spec fn split_path(path: Seq<char>) -> Seq<Seq<char>>
    decreases path.len(),
{
    if path.len() == 0 {
        seq![Seq::<char>::empty()]
    } else if path.last() == '/' {
        split_path(path.drop_last()).push(Seq::<char>::empty())
    } else {
        let before = split_path(path.drop_last());
        before.drop_last().push(before.last().push(path.last()))
    }
}

/// The characters of each text.
pub open spec fn texts(list: Seq<String>) -> Seq<Seq<char>> {
    list.map_values(|t: String| t@)
}

/// Splits a path at its slashes.
pub fn path_segments(path: &str) -> (segments: Vec<String>)
    ensures
        texts(segments@) == split_path(path@),
        segments@.len() >= 1,
{
    let len = path.unicode_len();
    let mut segments: Vec<String> = Vec::new();
    let mut start: usize = 0;
    let mut i: usize = 0;
    assert(path@.take(0) =~= Seq::<char>::empty());
    assert(texts(segments@).push(path@.subrange(0, 0)) =~= split_path(path@.take(0)));
    while i < len
        invariant
            len == path@.len(),
            0 <= start <= i <= len,
            texts(segments@).push(path@.subrange(start as int, i as int)) == split_path(
                path@.take(i as int),
            ),
        decreases len - i,
    {
        let c = path.get_char(i);
        let ghost before = path@.take(i as int);
        let ghost now = path@.take(i + 1);
        assert(now.drop_last() =~= before);
        assert(now.last() == c);
        if c == '/' {
            let piece = path.substring_char(start, i);
            let ghost done = texts(segments@);
            segments.push(String::from_str(piece));
            assert(texts(segments@) =~= done.push(path@.subrange(start as int, i as int)));
            start = i + 1;
            assert(path@.subrange(start as int, i + 1) =~= Seq::<char>::empty());
        } else {
            let ghost whole = texts(segments@).push(path@.subrange(start as int, i as int));
            assert(whole.drop_last() =~= texts(segments@));
            assert(whole.last().push(c) =~= path@.subrange(start as int, i + 1));
        }
        i = i + 1;
    }
    assert(path@.take(len as int) =~= path@);
    let piece = path.substring_char(start, len);
    let ghost done = texts(segments@);
    segments.push(String::from_str(piece));
    assert(texts(segments@) =~= done.push(path@.subrange(start as int, len as int)));
    segments
}

/// One file of the torrent, under the last segment of its path.
#[derive(Clone, Debug, PartialEq, Eq)]
pub struct TransmissionFile {
    pub name: String,
    pub id: usize,
    pub wanted: bool,
    pub priority: Priority,
    pub length: i64,
    pub bytes_completed: i64,
    /// The directory that holds the file.
    pub directory: usize,
}

impl TransmissionFile {
    pub fn set_wanted(&mut self, new_wanted: bool)
        ensures
            *final(self) == (TransmissionFile { wanted: new_wanted, ..*old(self) }),
    {
        self.wanted = new_wanted;
    }

    /// The priority's name on screen.
    pub fn priority_str(&self) -> (name: &'static str)
        ensures
            name@ == match self.priority {
                Priority::Low => "Low"@,
                Priority::Normal => "Normal"@,
                Priority::High => "High"@,
            },
    {
        match self.priority {
            Priority::Low => "Low",
            Priority::Normal => "Normal",
            Priority::High => "High",
        }
    }
}

/// One directory, under its own name. The root has no name and is its own
/// parent.
#[derive(Clone, Debug, PartialEq, Eq)]
pub struct Directory {
    pub name: String,
    pub parent: usize,
}

pub struct DirectoryView {
    pub name: Seq<char>,
    pub parent: usize,
}

impl View for Directory {
    type V = DirectoryView;

    open spec fn view(&self) -> DirectoryView {
        DirectoryView { name: self.name@, parent: self.parent }
    }
}

/// The directories by the characters of their names.
pub open spec fn directory_views(directories: Seq<Directory>) -> Seq<DirectoryView> {
    directories.map_values(|d: Directory| d@)
}

/// The root directory: without a name, and its own parent.
pub open spec fn root_directory() -> DirectoryView {
    DirectoryView { name: Seq::empty(), parent: 0 }
}

#[derive(Clone, Debug, PartialEq, Eq)]
pub struct Node {
    pub directories: Vec<Directory>,
    pub items: Vec<TransmissionFile>,
}

impl Node {
    /// The root exists; every other directory was made after its parent;
    /// no directory holds two directories of one name; every file lies in a
    /// directory.
    pub open spec fn wf(&self) -> bool {
        &&& self.directories@.len() >= 1
        &&& self.directories@[0].parent == 0
        &&& forall|d: int|
            1 <= d < self.directories@.len() ==> (#[trigger] self.directories@[d]).parent < d
        &&& forall|a: int, b: int|
            1 <= a < b < self.directories@.len() && (#[trigger] self.directories@[a]).parent == (
            #[trigger] self.directories@[b]).parent ==> self.directories@[a].name@
                != self.directories@[b].name@
        &&& forall|f: int|
            0 <= f < self.items@.len() ==> (#[trigger] self.items@[f]).directory
                < self.directories@.len()
    }

    /// The names of the directories from the root down to directory `d`.
    pub open spec fn directory_path(&self, d: int) -> Seq<Seq<char>>
        decreases d,
    {
        if 1 <= d < self.directories@.len() && self.directories@[d].parent < d {
            self.directory_path(self.directories@[d].parent as int).push(
                self.directories@[d].name@,
            )
        } else {
            Seq::empty()
        }
    }

    /// Whether directory `d` is directory `e` or one that `e` lies in.
    pub open spec fn holds_directory(&self, d: int, e: int) -> bool
        decreases e,
    {
        d == e || (1 <= e < self.directories@.len() && self.directories@[e].parent < e
            && self.holds_directory(d, self.directories@[e].parent as int))
    }

    /// Whether some file lies in directory `d` or further down in it.
    pub open spec fn in_use(&self, d: int) -> bool {
        exists|f: int|
            0 <= f < self.items@.len() && self.holds_directory(
                d,
                (#[trigger] self.items@[f]).directory as int,
            )
    }

    /// The segments of the path of file `f`: its directories, then its name.
    pub open spec fn file_path(&self, f: int) -> Seq<Seq<char>> {
        self.directory_path(self.items@[f].directory as int).push(self.items@[f].name@)
    }

    /// File `f` has `f` for its id and holds what the torrent says of its
    /// file `f`, under the last segment of the path given there, at the place
    /// that the path names.
    pub open spec fn holds(&self, torrent: &TorrentInfo, f: int) -> bool {
        &&& self.items@[f].id == f
        &&& self.items@[f].wanted == torrent.wanted@[f]
        &&& self.items@[f].priority == torrent.priorities@[f]
        &&& self.items@[f].length == torrent.files@[f].length
        &&& self.items@[f].bytes_completed == torrent.files@[f].bytes_completed
        &&& self.file_path(f) == split_path(torrent.files@[f].name@)
    }

    /// A tree with nothing but the root.
    pub fn new() -> (node: Node)
        ensures
            node.wf(),
            directory_views(node.directories@) == seq![root_directory()],
            node.directories@.len() == 1,
            node.items@.len() == 0,
    {
        let mut directories: Vec<Directory> = Vec::new();
        directories.push(Directory { name: String::new(), parent: 0 });
        assert(directory_views(directories@) =~= seq![root_directory()]);
        Node { directories, items: Vec::new() }
    }

    /// The directory named `name` inside directory `parent`, if there is one.
    pub fn find_directory(&self, parent: usize, name: &String) -> (found: Option<usize>)
        requires
            self.wf(),
        ensures
            match found {
                Some(d) => 1 <= d < self.directories@.len() && self.directories@[d as int].parent
                    == parent && self.directories@[d as int].name@ == name@,
                None => forall|d: int|
                    1 <= d < self.directories@.len() ==> !((#[trigger] self.directories@[d]).parent
                        == parent && self.directories@[d].name@ == name@),
            },
    {
        let mut d: usize = 1;
        while d < self.directories.len()
            invariant
                1 <= d <= self.directories@.len(),
                forall|k: int|
                    1 <= k < d ==> !((#[trigger] self.directories@[k]).parent == parent
                        && self.directories@[k].name@ == name@),
            decreases self.directories@.len() - d,
        {
            if self.directories[d].parent == parent && self.directories[d].name == *name {
                return Some(d);
            }
            d = d + 1;
        }
        None
    }

    /// Paths only look upward: a directory added behind the others leaves
    /// their paths as they were.
    pub proof fn lemma_path_stable(&self, other: &Node, d: int)
        requires
            0 <= d < self.directories@.len() <= other.directories@.len(),
            forall|k: int|
                0 <= k < self.directories@.len() ==> self.directories@[k] == other.directories@[k],
        ensures
            self.directory_path(d) == other.directory_path(d),
        decreases d,
    {
        if 1 <= d && self.directories@[d].parent < d {
            self.lemma_path_stable(other, self.directories@[d].parent as int);
        }
    }

    /// What lies in what only looks upward too: a directory added behind
    /// the others changes nothing among them.
    pub proof fn lemma_holds_stable(&self, other: &Node, d: int, e: int)
        requires
            0 <= e < self.directories@.len() <= other.directories@.len(),
            forall|k: int|
                0 <= k < self.directories@.len() ==> self.directories@[k] == other.directories@[k],
        ensures
            self.holds_directory(d, e) == other.holds_directory(d, e),
        decreases e,
    {
        if d != e && 1 <= e && self.directories@[e].parent < e {
            self.lemma_holds_stable(other, d, self.directories@[e].parent as int);
        }
    }

    /// Puts a file into the tree: behind the files that are there, in the
    /// directory that the segments of the path but the last one name from
    /// the root down, with the directories on the way made as far as they
    /// are missing. The last segment stands for the file itself and makes no
    /// directory. On a path without any segment the tree stays as it is.
    pub fn add_transmission_file(&mut self, file: TransmissionFile, remaining_path: &Vec<String>)
        requires
            old(self).wf(),
        ensures
            final(self).wf(),
            remaining_path@.len() == 0 ==> *final(self) == *old(self),
            remaining_path@.len() > 0 ==> {
                &&& final(self).items@.len() == old(self).items@.len() + 1
                &&& final(self).items@.last() == (TransmissionFile {
                    directory: final(self).items@.last().directory,
                    ..file
                })
                &&& final(self).directory_path(final(self).items@.last().directory as int)
                    == texts(remaining_path@).drop_last()
            },
            final(self).directories@.len() >= old(self).directories@.len(),
            forall|f: int|
                0 <= f < old(self).items@.len() ==> #[trigger] final(self).items@[f] == old(
                    self,
                ).items@[f],
            forall|f: int|
                0 <= f < old(self).items@.len() ==> #[trigger] final(self).file_path(f) == old(
                    self,
                ).file_path(f),
            forall|d: int|
                old(self).directories@.len() <= d < final(self).directories@.len()
                    ==> final(self).holds_directory(d, final(self).items@.last().directory as int),
            forall|k: int|
                0 <= k < old(self).directories@.len() ==> final(self).directories@[k]
                    == old(self).directories@[k],
    {
        if remaining_path.len() == 0 {
            return;
        }
        let ghost start = *self;
        let mut current: usize = 0;
        let mut i: usize = 0;
        let last: usize = remaining_path.len() - 1;
        assert(texts(remaining_path@).take(0) =~= Seq::<Seq<char>>::empty());
        while i < last
            invariant
                self.wf(),
                last == remaining_path@.len() - 1,
                0 <= i <= last,
                current < self.directories@.len(),
                self.items == start.items,
                self.directories@.len() >= start.directories@.len(),
                forall|k: int|
                    0 <= k < start.directories@.len() ==> self.directories@[k]
                        == start.directories@[k],
                self.directory_path(current as int) == texts(remaining_path@).take(i as int),
                forall|d: int|
                    start.directories@.len() <= d < self.directories@.len()
                        ==> self.holds_directory(d, current as int),
            decreases last - i,
        {
            let name = &remaining_path[i];
            let ghost before = *self;
            let next = match self.find_directory(current, name) {
                Some(d) => d,
                None => {
                    let d = self.directories.len();
                    self.directories.push(Directory { name: name.clone(), parent: current });
                    proof {
                        assert forall|a: int, b: int|
                            1 <= a < b < self.directories@.len() && (
                            #[trigger] self.directories@[a]).parent == (
                            #[trigger] self.directories@[b]).parent implies self.directories@[a].name@
                            != self.directories@[b].name@ by {
                            if b < d {
                                assert(before.directories@[a].parent
                                    == before.directories@[b].parent);
                            } else {
                                assert(before.directories@[a].parent == current);
                            }
                        }
                    }
                    d
                },
            };
            proof {
                before.lemma_path_stable(self, current as int);
                assert forall|d: int|
                    start.directories@.len() <= d < self.directories@.len()
                        implies self.holds_directory(d, next as int) by {
                    if d < before.directories@.len() {
                        assert(before.holds_directory(d, current as int));
                        before.lemma_holds_stable(self, d, current as int);
                    }
                    if d != next {
                        assert(self.holds_directory(d, self.directories@[next as int].parent as int));
                    }
                }
                assert(self.directory_path(next as int) == self.directory_path(
                    current as int,
                ).push(name@));
                assert(texts(remaining_path@).take(i + 1) =~= texts(remaining_path@).take(
                    i as int,
                ).push(name@));
            }
            current = next;
            i = i + 1;
        }
        let ghost before = *self;
        let mut file = file;
        file.directory = current;
        self.items.push(file);
        proof {
            assert(texts(remaining_path@).drop_last() =~= texts(remaining_path@).take(
                last as int,
            ));
            before.lemma_path_stable(self, current as int);
            assert(self.items@[start.items@.len() as int] == self.items@.last());
            assert forall|d: int|
                start.directories@.len() <= d < self.directories@.len()
                    implies self.holds_directory(d, self.items@.last().directory as int) by {
                before.lemma_holds_stable(self, d, current as int);
            }
            assert forall|f: int| 0 <= f < start.items@.len() implies self.file_path(f)
                == start.file_path(f) by {
                start.lemma_path_stable(self, start.items@[f].directory as int);
            }
        }
    }

    /// The tree of a torrent's files.
    pub fn new_from_torrent(torrent: &TorrentInfo) -> (node: Node)
        requires
            torrent.wf(),
        ensures
            node.wf(),
            node.items@.len() == torrent.files@.len(),
            forall|f: int| 0 <= f < torrent.files@.len() ==> node.holds(torrent, f),
            forall|d: int| 1 <= d < node.directories@.len() ==> node.in_use(d),
    {
        let mut root = Node::new();
        let mut id: usize = 0;
        while id < torrent.files.len()
            invariant
                torrent.wf(),
                root.wf(),
                0 <= id <= torrent.files@.len(),
                root.items@.len() == id,
                forall|f: int| 0 <= f < id ==> root.holds(torrent, f),
                forall|d: int| 1 <= d < root.directories@.len() ==> root.in_use(d),
            decreases torrent.files@.len() - id,
        {
            let entry = &torrent.files[id];
            let path = path_segments(entry.name.as_str());
            let file = TransmissionFile {
                id,
                name: path[path.len() - 1].clone(),
                wanted: torrent.wanted[id],
                length: entry.length,
                bytes_completed: entry.bytes_completed,
                priority: torrent.priorities[id],
                directory: 0,
            };
            let ghost before = root;
            root.add_transmission_file(file, &path);
            proof {
                assert forall|f: int| 0 <= f < id + 1 implies root.holds(torrent, f) by {
                    if f < id {
                        assert(before.holds(torrent, f));
                    } else {
                        assert(root.items@[f] == root.items@.last());
                        assert(texts(path@) =~= texts(path@).drop_last().push(path@.last()@));
                    }
                }
                assert forall|d: int| 1 <= d < root.directories@.len() implies root.in_use(d) by {
                    if d < before.directories@.len() {
                        assert(before.in_use(d));
                        let f = choose|f: int|
                            0 <= f < before.items@.len() && before.holds_directory(
                                d,
                                (#[trigger] before.items@[f]).directory as int,
                            );
                        before.lemma_holds_stable(&root, d, before.items@[f].directory as int);
                        assert(root.items@[f] == before.items@[f]);
                    } else {
                        assert(root.items@[id as int] == root.items@.last());
                    }
                }
            }
            id = id + 1;
        }
        root
    }

    /// Marks the files with the given ids as wanted or not. Ids that no
    /// file has are passed over.
    pub fn set_wanted(&mut self, ids: &Vec<usize>, wanted: bool)
        requires
            old(self).wf(),
        ensures
            final(self).wf(),
            final(self).directories == old(self).directories,
            final(self).items@.len() == old(self).items@.len(),
            forall|f: int|
                0 <= f < old(self).items@.len() ==> #[trigger] final(self).items@[f] == (
                if ids@.contains(f as usize) {
                    TransmissionFile { wanted, ..old(self).items@[f] }
                } else {
                    old(self).items@[f]
                }),
    {
        let mut k: usize = 0;
        while k < ids.len()
            invariant
                0 <= k <= ids@.len(),
                self.wf(),
                self.directories == old(self).directories,
                self.items@.len() == old(self).items@.len(),
                forall|f: int|
                    0 <= f < old(self).items@.len() ==> #[trigger] self.items@[f] == (
                    if ids@.take(k as int).contains(f as usize) {
                        TransmissionFile { wanted, ..old(self).items@[f] }
                    } else {
                        old(self).items@[f]
                    }),
            decreases ids@.len() - k,
        {
            let id = ids[k];
            let ghost before = *self;
            if id < self.items.len() {
                self.items[id].set_wanted(wanted);
            }
            proof {
                assert(ids@.take(k + 1) =~= ids@.take(k as int).push(id));
                assert forall|f: int| 0 <= f < old(self).items@.len() implies #[trigger] self.items@[f]
                    == (if ids@.take(k + 1).contains(f as usize) {
                    TransmissionFile { wanted, ..old(self).items@[f] }
                } else {
                    old(self).items@[f]
                }) by {
                    assert(before.items@[f] == (if ids@.take(k as int).contains(f as usize) {
                        TransmissionFile { wanted, ..old(self).items@[f] }
                    } else {
                        old(self).items@[f]
                    }));
                    if f == id {
                        assert(ids@.take(k + 1).last() == id);
                    } else {
                        let longer = ids@.take(k + 1);
                        if longer.contains(f as usize) {
                            let j = choose|j: int| 0 <= j < longer.len() && longer[j] == f as usize;
                            assert(ids@.take(k as int)[j] == f as usize);
                        }
                    }
                }
            }
            k = k + 1;
        }
        assert(ids@.take(ids@.len() as int) =~= ids@);
    }

    /// The name of the file with the given id.
    pub fn file_name(&self, id: usize) -> (name: Option<String>)
        ensures
            match name {
                Some(n) => id < self.items@.len() && n == self.items@[id as int].name,
                None => id >= self.items@.len(),
            },
    {
        if id < self.items.len() {
            Some(self.items[id].name.clone())
        } else {
            None
        }
    }

    /// The directories directly inside directory `parent`, in the order
    /// they were made.
    pub fn child_directories(&self, parent: usize) -> (children: Vec<usize>)
        ensures
            forall|k: int| 0 <= k < children@.len() ==> 1 <= #[trigger] children@[k]
                < self.directories@.len() && self.directories@[children@[k] as int].parent
                == parent,
            forall|d: int|
                1 <= d < self.directories@.len() && (#[trigger] self.directories@[d]).parent
                    == parent ==> children@.contains(d as usize),
            forall|j: int, k: int| 0 <= j < k < children@.len() ==> children@[j] < children@[k],
    {
        let mut children: Vec<usize> = Vec::new();
        let mut d: usize = 1;
        while d < self.directories.len()
            invariant
                1 <= d,
                forall|k: int| 0 <= k < children@.len() ==> 1 <= #[trigger] children@[k] < d
                    && children@[k] < self.directories@.len()
                    && self.directories@[children@[k] as int].parent == parent,
                forall|c: int|
                    1 <= c < d && c < self.directories@.len() && (
                    #[trigger] self.directories@[c]).parent == parent ==> children@.contains(
                        c as usize,
                    ),
                forall|j: int, k: int| 0 <= j < k < children@.len() ==> children@[j] < children@[k],
            decreases self.directories@.len() - d,
        {
            if self.directories[d].parent == parent {
                let ghost before = children@;
                children.push(d);
                proof {
                    assert(children@.last() == d);
                    assert forall|c: int|
                        1 <= c < d + 1 && c < self.directories@.len() && (
                        #[trigger] self.directories@[c]).parent == parent implies children@.contains(
                        c as usize,
                    ) by {
                        if c < d {
                            let j = choose|j: int| 0 <= j < before.len() && before[j] == c as usize;
                            assert(children@[j] == c as usize);
                        }
                    }
                }
            }
            d = d + 1;
        }
        children
    }

    /// The files directly inside directory `parent`, by ascending id.
    pub fn child_files(&self, parent: usize) -> (children: Vec<usize>)
        ensures
            forall|k: int| 0 <= k < children@.len() ==> #[trigger] children@[k] < self.items@.len()
                && self.items@[children@[k] as int].directory == parent,
            forall|f: int|
                0 <= f < self.items@.len() && (#[trigger] self.items@[f]).directory == parent
                    ==> children@.contains(f as usize),
            forall|j: int, k: int| 0 <= j < k < children@.len() ==> children@[j] < children@[k],
    {
        let mut children: Vec<usize> = Vec::new();
        let mut f: usize = 0;
        while f < self.items.len()
            invariant
                forall|k: int| 0 <= k < children@.len() ==> #[trigger] children@[k] < f
                    && children@[k] < self.items@.len() && self.items@[children@[k] as int].directory
                    == parent,
                forall|c: int|
                    0 <= c < f && c < self.items@.len() && (#[trigger] self.items@[c]).directory
                        == parent ==> children@.contains(c as usize),
                forall|j: int, k: int| 0 <= j < k < children@.len() ==> children@[j] < children@[k],
            decreases self.items@.len() - f,
        {
            if self.items[f].directory == parent {
                let ghost before = children@;
                children.push(f);
                proof {
                    assert(children@.last() == f);
                    assert forall|c: int|
                        0 <= c < f + 1 && c < self.items@.len() && (
                        #[trigger] self.items@[c]).directory == parent implies children@.contains(
                        c as usize,
                    ) by {
                        if c < f {
                            let j = choose|j: int| 0 <= j < before.len() && before[j] == c as usize;
                            assert(children@[j] == c as usize);
                        }
                    }
                }
            }
            f = f + 1;
        }
        children
    }
}

} // verus!
