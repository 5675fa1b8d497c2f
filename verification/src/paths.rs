//! The entries of one listing, their alignment and their rows.

use crate::path::{is_row, Path, PathView};
use crate::text::{char_len, is_hidden_name, lemma_pad_to, pad_past, pad_to, starts_with_dot, width};
use vstd::prelude::*;

verus! {

/// The entries of one listing, in the order in which they were found, and
/// the options under which they are shown.
#[derive(Debug)]
pub struct Paths {
    /// The entries, in the order of the traversal.
    pub paths: Vec<Path>,
    /// Whether the long format was asked for.
    pub long: bool,
    /// Whether hidden entries, whose names begin with a dot, are shown.
    pub all: bool,
    /// Whether a tree was asked for, and the label of its root.
    pub tree: (bool, String),
    /// Whether the columns have been padded.
    pub padded: bool,
}

/// The mathematical content of a [`Paths`].
pub struct PathsView {
    pub entries: Seq<PathView>,
    pub long: bool,
    pub all: bool,
    pub tree: (bool, Seq<char>),
    pub padded: bool,
}

/// The contents of the descriptors in `paths`.
pub open spec fn entry_views(paths: Seq<Path>) -> Seq<PathView> {
    paths.map_values(|p: Path| p@)
}

impl View for Paths {
    type V = PathsView;

    open spec fn view(&self) -> PathsView {
        PathsView {
            entries: entry_views(self.paths@),
            long: self.long,
            all: self.all,
            tree: (self.tree.0, self.tree.1@),
            padded: self.padded,
        }
    }
}

/// The name column of `entries`.
pub open spec fn names(entries: Seq<PathView>) -> Seq<Seq<char>> {
    entries.map_values(|e: PathView| e.name)
}

/// The size column of `entries`.
pub open spec fn sizes(entries: Seq<PathView>) -> Seq<Seq<char>> {
    entries.map_values(|e: PathView| e.size)
}

/// The greatest width among the texts of `column`, and 0 for an empty one.
pub open spec fn widest(column: Seq<Seq<char>>) -> nat
    decreases column.len(),
{
    if column.len() == 0 {
        0
    } else if width(column.last()) > widest(column.drop_last()) {
        width(column.last())
    } else {
        widest(column.drop_last())
    }
}

/// `entry` with its name padded to `name_width` and its size to `size_width`.
pub open spec fn pad_entry(entry: PathView, name_width: nat, size_width: nat) -> PathView {
    PathView {
        name: pad_to(entry.name, name_width),
        is_dir: entry.is_dir,
        size: pad_to(entry.size, size_width),
        time: entry.time,
    }
}

/// `entries` with every name padded to one more than the widest name, and
/// every size to one more than the widest size.
pub open spec fn pad_entries(entries: Seq<PathView>) -> Seq<PathView> {
    entries.map_values(
        |e: PathView| pad_entry(e, widest(names(entries)) + 1, widest(sizes(entries)) + 1),
    )
}

/// The pad step: a listing that is not yet padded gets its columns padded
/// and is marked; one that is already marked stays as it is.
pub open spec fn pad_step(state: PathsView) -> PathsView {
    if state.padded {
        state
    } else {
        PathsView {
            entries: pad_entries(state.entries),
            long: state.long,
            all: state.all,
            tree: state.tree,
            padded: true,
        }
    }
}

/// Whether an entry is shown: always where hidden entries are shown too,
/// and otherwise unless its name begins with a dot.
pub open spec fn is_shown(entry: PathView, all: bool) -> bool {
    all || !starts_with_dot(entry.name)
}

/// The entries of `entries` that are shown, in their order.
pub open spec fn shown(entries: Seq<PathView>, all: bool) -> Seq<PathView> {
    entries.filter(|e: PathView| is_shown(e, all))
}

/// Whether all names of `entries` are equally wide, and all sizes too.
pub open spec fn aligned(entries: Seq<PathView>) -> bool {
    forall|i: int, j: int|
        #![trigger entries[i], entries[j]]
        0 <= i < entries.len() && 0 <= j < entries.len() ==> {
            &&& width(entries[i].name) == width(entries[j].name)
            &&& width(entries[i].size) == width(entries[j].size)
        }
}

/// The invariant of a listing: one that is marked as padded has aligned
/// columns. The listings that [`Paths::default`] and the methods of
/// [`Paths`] produce have it as long as the entries of a padded listing are
/// left alone.
pub open spec fn well_formed(state: PathsView) -> bool {
    state.padded ==> aligned(state.entries)
}

/// `widest` is the maximum of the widths: no text of the column is wider,
/// and one text of a column that is not empty is that wide.
pub proof fn lemma_widest(column: Seq<Seq<char>>)
    ensures
        forall|i: int| 0 <= i < column.len() ==> width(#[trigger] column[i]) <= widest(column),
        column.len() > 0 ==> exists|i: int|
            0 <= i < column.len() && width(#[trigger] column[i]) == widest(column),
        column.len() == 0 ==> widest(column) == 0,
    decreases column.len(),
{
    if column.len() > 0 {
        let rest = column.drop_last();
        lemma_widest(rest);
        assert forall|i: int| 0 <= i < column.len() implies width(#[trigger] column[i]) <= widest(
            column,
        ) by {
            if i < rest.len() {
                assert(rest[i] == column[i]);
            }
        }
        if width(column.last()) > widest(rest) || rest.len() == 0 {
            assert(width(column[column.len() - 1]) == widest(column));
        } else {
            let k = choose|k: int| 0 <= k < rest.len() && width(#[trigger] rest[k]) == widest(rest);
            assert(rest[k] == column[k]);
        }
    }
}

/// After padding, any two entries have names of equal width and sizes of
/// equal width: one more than the widest name and the widest size before.
pub proof fn lemma_padded_widths(entries: Seq<PathView>, i: int)
    requires
        0 <= i < entries.len(),
    ensures
        width(pad_entries(entries)[i].name) == widest(names(entries)) + 1,
        width(pad_entries(entries)[i].size) == widest(sizes(entries)) + 1,
{
    lemma_widest(names(entries));
    lemma_widest(sizes(entries));
    assert(names(entries)[i] == entries[i].name);
    assert(sizes(entries)[i] == entries[i].size);
    lemma_pad_to(entries[i].name, widest(names(entries)) + 1);
    lemma_pad_to(entries[i].size, widest(sizes(entries)) + 1);
}

/// After the pad step the columns of a well-formed listing are aligned:
/// any two entries have names of equal width and sizes of equal width. The
/// step keeps the number and the order of the entries.
pub proof fn lemma_pad_step_aligns(state: PathsView)
    requires
        well_formed(state),
    ensures
        aligned(pad_step(state).entries),
        pad_step(state).padded,
        pad_step(state).entries.len() == state.entries.len(),
{
    if !state.padded {
        let after = pad_step(state).entries;
        assert forall|i: int, j: int|
            #![trigger after[i], after[j]]
            0 <= i < after.len() && 0 <= j < after.len() implies {
            &&& width(after[i].name) == width(after[j].name)
            &&& width(after[i].size) == width(after[j].size)
        } by {
            lemma_padded_widths(state.entries, i);
            lemma_padded_widths(state.entries, j);
        }
    }
}

/// The pad step applied a second time changes nothing.
pub proof fn lemma_pad_step_once(state: PathsView)
    ensures
        pad_step(pad_step(state)) == pad_step(state),
{
}

/// Padding changes neither which entries are shown nor their order, and the
/// widths of the columns are those of the whole listing, hidden entries
/// included.
pub proof fn lemma_shown_padded(entries: Seq<PathView>, all: bool)
    ensures
        shown(pad_entries(entries), all) == shown(entries, all).map_values(
            |e: PathView| pad_entry(e, widest(names(entries)) + 1, widest(sizes(entries)) + 1),
        ),
{
    let name_width = widest(names(entries)) + 1;
    let size_width = widest(sizes(entries)) + 1;
    lemma_shown_padded_to(entries, all, name_width, size_width);
    assert(pad_entries(entries) =~= entries.map_values(
        |e: PathView| pad_entry(e, name_width, size_width),
    ));
}

/// Padding to any widths changes neither which entries are shown nor their
/// order.
pub proof fn lemma_shown_padded_to(
    entries: Seq<PathView>,
    all: bool,
    name_width: nat,
    size_width: nat,
)
    ensures
        shown(entries.map_values(|e: PathView| pad_entry(e, name_width, size_width)), all)
            == shown(entries, all).map_values(|e: PathView| pad_entry(e, name_width, size_width)),
    decreases entries.len(),
{
    let pad = |e: PathView| pad_entry(e, name_width, size_width);
    let keep = |e: PathView| is_shown(e, all);
    reveal(Seq::filter);
    if entries.len() == 0 {
        assert(entries.map_values(pad).filter(keep) =~= entries.filter(keep).map_values(pad));
    } else {
        let last = entries.last();
        lemma_shown_padded_to(entries.drop_last(), all, name_width, size_width);
        assert(entries.map_values(pad).drop_last() =~= entries.drop_last().map_values(pad));
        assert(entries.map_values(pad).last() == pad(last));
        if width(last.name) <= name_width {
            lemma_pad_to(last.name, name_width);
        }
        assert(is_shown(pad(last), all) == is_shown(last, all));
        assert(entries.map_values(pad).filter(keep) =~= entries.filter(keep).map_values(pad));
    }
}

impl Default for Paths {
    /// An empty listing that shows no hidden entries, in the short format,
    /// without a tree, and not yet padded.
    fn default() -> (r: Paths)
        ensures
            r.paths@ == Seq::<Path>::empty(),
            !r.long,
            !r.all,
            !r.tree.0,
            r.tree.1@ == Seq::<char>::empty(),
            !r.padded,
    {
        Paths { paths: Vec::new(), long: false, all: false, tree: (false, String::new()), padded: false }
    }
}

impl Paths {
    /// The greatest width among the names and the greatest width among the
    /// sizes, in characters; 0 for a listing without entries.
    pub fn get_biggest_str_len(&self) -> (r: (usize, usize))
        ensures
            r.0 == widest(names(self@.entries)),
            r.1 == widest(sizes(self@.entries)),
    {
        let ghost name_column = names(self@.entries);
        let ghost size_column = sizes(self@.entries);
        let mut name_width: usize = 0;
        let mut size_width: usize = 0;
        let mut i: usize = 0;
        while i < self.paths.len()
            invariant
                i <= self.paths.len(),
                name_column == names(self@.entries),
                size_column == sizes(self@.entries),
                name_column.len() == self.paths.len(),
                size_column.len() == self.paths.len(),
                name_width == widest(name_column.take(i as int)),
                size_width == widest(size_column.take(i as int)),
            decreases self.paths.len() - i,
        {
            let path = &self.paths[i];
            let name_len = char_len(path.file_name.as_str());
            let size_len = char_len(path.size.as_str());
            proof {
                assert(name_column.take(i + 1).drop_last() =~= name_column.take(i as int));
                assert(size_column.take(i + 1).drop_last() =~= size_column.take(i as int));
                assert(name_column.take(i + 1).last() == path.file_name@);
                assert(size_column.take(i + 1).last() == path.size@);
            }
            if name_len > name_width {
                name_width = name_len;
            }
            if size_len > size_width {
                size_width = size_len;
            }
            i = i + 1;
        }
        proof {
            assert(name_column.take(i as int) =~= name_column);
            assert(size_column.take(i as int) =~= size_column);
        }
        (name_width, size_width)
    }

    /// Pads every name with spaces to one more than the widest name, and
    /// every size to one more than the widest size, so that the columns line
    /// up and a space follows even the widest text. A listing that is
    /// already padded is left as it is.
    pub fn indentate_paths(&mut self)
        ensures
            final(self)@ == pad_step(old(self)@),
            old(self).padded ==> *final(self) == *old(self),
            final(self).padded,
            final(self).paths.len() == old(self).paths.len(),
            well_formed(old(self)@) ==> aligned(final(self)@.entries),
    {
        if self.padded {
            return ;
        }
        let (name_width, size_width) = self.get_biggest_str_len();
        let ghost before = self@.entries;
        let mut i: usize = 0;
        while i < self.paths.len()
            invariant
                i <= self.paths.len(),
                self.paths.len() == before.len(),
                self.long == old(self).long,
                self.all == old(self).all,
                self.tree == old(self).tree,
                !self.padded,
                before == old(self)@.entries,
                name_width == widest(names(before)),
                size_width == widest(sizes(before)),
                forall|k: int| 0 <= k < i ==> (#[trigger] self.paths[k])@ == pad_entries(before)[k],
                forall|k: int| i <= k < before.len() ==> (#[trigger] self.paths[k])@ == before[k],
            decreases self.paths.len() - i,
        {
            proof {
                lemma_widest(names(before));
                lemma_widest(sizes(before));
                assert(names(before)[i as int] == before[i as int].name);
                assert(sizes(before)[i as int] == before[i as int].size);
            }
            pad_past(&mut self.paths[i].file_name, name_width);
            pad_past(&mut self.paths[i].size, size_width);
            i = i + 1;
        }
        self.padded = true;
        proof {
            assert(self@.entries =~= pad_entries(before));
            lemma_pad_step_aligns(old(self)@);
        }
    }

    /// The rows of the listing, one for each entry that is shown, in the
    /// order of the entries.
    ///
    /// The columns are padded first, unless they already are; the widths are
    /// those of all entries, hidden ones included. An entry whose name
    /// begins with a dot gets no row unless hidden entries are shown.
    pub fn print(self) -> (lines: Vec<String>)
        ensures
            lines.len() == shown(pad_step(self@).entries, self.all).len(),
            forall|k: int|
                0 <= k < lines.len() ==> is_row(
                    (#[trigger] lines[k])@,
                    shown(pad_step(self@).entries, self.all)[k],
                ),
    {
        let mut listing = self;
        listing.indentate_paths();
        let ghost entries = listing@.entries;
        let all = listing.all;
        let mut lines: Vec<String> = Vec::new();
        let mut i: usize = 0;
        while i < listing.paths.len()
            invariant
                i <= listing.paths.len(),
                entries == listing@.entries,
                entries.len() == listing.paths.len(),
                lines.len() == shown(entries.take(i as int), all).len(),
                forall|k: int|
                    0 <= k < lines.len() ==> is_row(
                        (#[trigger] lines[k])@,
                        shown(entries.take(i as int), all)[k],
                    ),
            decreases listing.paths.len() - i,
        {
            let path = &listing.paths[i];
            proof {
                reveal(Seq::filter);
                assert(entries.take(i + 1).drop_last() =~= entries.take(i as int));
                assert(entries.take(i + 1).last() == path@);
            }
            if all || !is_hidden_name(path.file_name.as_str()) {
                let line = path.print();
                lines.push(line);
            }
            i = i + 1;
        }
        proof {
            assert(entries.take(i as int) =~= entries);
        }
        lines
    }

    /// Takes over the options of an invocation: whether hidden entries are
    /// shown, whether the long format is asked for, and the root of the tree
    /// where one is asked for. Without a root the tree setting stays as it
    /// is.
    pub fn setup_args(&mut self, args: (bool, bool, Option<String>))
        ensures
            final(self).paths == old(self).paths,
            final(self).padded == old(self).padded,
            final(self).all == args.0,
            final(self).long == args.1,
            final(self).tree == match args.2 {
                Some(root) => (true, root),
                None => old(self).tree,
            },
    {
        let (all, long, tree) = args;
        self.all = all;
        self.long = long;
        if let Some(root) = tree {
            self.tree = (true, root);
        }
    }
}

} // verus!
