//! The listing of a directory of a repository: what each entry is, and the
//! order in which the entries are shown.
//!
//! Directories come first, then files, symbolic links, submodules and
//! whatever else; within each kind the entries stand by their names in
//! lower case, and entries that agree in both keep the order in which the
//! repository gave them.
use vstd::prelude::*;
use crate::codec::{lowercase_of, to_lowercase};
use crate::text::{chars_of, join};

verus! {

/// One entry of a directory.
#[derive(Debug, Clone, PartialEq, Eq)]
pub enum TreeEntry {
    Dir { name: String },
    File { name: String, size: u64 },
    Symlink { name: String },
    Submodule { name: String },
    Other { name: String },
}

/// The mathematical content of a [`TreeEntry`].
pub enum EntryView {
    Dir { name: Seq<char> },
    File { name: Seq<char>, size: u64 },
    Symlink { name: Seq<char> },
    Submodule { name: Seq<char> },
    Other { name: Seq<char> },
}

impl View for TreeEntry {
    type V = EntryView;

    open spec fn view(&self) -> EntryView {
        match self {
            TreeEntry::Dir { name } => EntryView::Dir { name: name@ },
            TreeEntry::File { name, size } => EntryView::File { name: name@, size: *size },
            TreeEntry::Symlink { name } => EntryView::Symlink { name: name@ },
            TreeEntry::Submodule { name } => EntryView::Submodule { name: name@ },
            TreeEntry::Other { name } => EntryView::Other { name: name@ },
        }
    }
}

impl EntryView {
    /// The name of the entry.
    pub open spec fn name(self) -> Seq<char> {
        match self {
            EntryView::Dir { name } => name,
            EntryView::File { name, .. } => name,
            EntryView::Symlink { name } => name,
            EntryView::Submodule { name } => name,
            EntryView::Other { name } => name,
        }
    }

    /// The place of the entry's kind in a listing.
    pub open spec fn rank(self) -> nat {
        match self {
            EntryView::Dir { .. } => 0,
            EntryView::File { .. } => 1,
            EntryView::Symlink { .. } => 2,
            EntryView::Submodule { .. } => 3,
            EntryView::Other { .. } => 4,
        }
    }
}

impl TreeEntry {
    /// The name of the entry.
    pub fn name(&self) -> (name: &str)
        ensures
            name@ == self@.name(),
    {
        match self {
            TreeEntry::Dir { name } => name.as_str(),
            TreeEntry::File { name, .. } => name.as_str(),
            TreeEntry::Symlink { name } => name.as_str(),
            TreeEntry::Submodule { name } => name.as_str(),
            TreeEntry::Other { name } => name.as_str(),
        }
    }

    /// The place of the entry's kind in a listing.
    pub fn rank(&self) -> (rank: u8)
        ensures
            rank == self@.rank(),
    {
        match self {
            TreeEntry::Dir { .. } => 0,
            TreeEntry::File { .. } => 1,
            TreeEntry::Symlink { .. } => 2,
            TreeEntry::Submodule { .. } => 3,
            TreeEntry::Other { .. } => 4,
        }
    }
}

/// The kind of object that an entry of a tree names.
#[derive(Debug, Clone, Copy, PartialEq, Eq)]
pub enum ObjectKind {
    Tree,
    Commit,
    Blob,
    /// A tag, or no kind that is known.
    Other,
}

/// The file mode that marks a blob as a symbolic link.
pub const SYMLINK_MODE: i32 = 0o120000;

/// An entry as the repository gives it.
#[derive(Debug, Clone, PartialEq, Eq)]
pub struct RawEntry {
    pub name: String,
    pub kind: ObjectKind,
    pub filemode: i32,
    /// The size of the blob, for a blob that is no symbolic link.
    pub size: u64,
}

/// What an entry of a tree is shown as: a tree is a directory, a commit a
/// submodule, a blob a symbolic link or a file by its mode.
pub open spec fn shown_as(name: Seq<char>, kind: ObjectKind, filemode: i32, size: u64) -> EntryView {
    match kind {
        ObjectKind::Tree => EntryView::Dir { name },
        ObjectKind::Commit => EntryView::Submodule { name },
        ObjectKind::Blob => if filemode == SYMLINK_MODE {
            EntryView::Symlink { name }
        } else {
            EntryView::File { name, size }
        },
        ObjectKind::Other => EntryView::Other { name },
    }
}

/// Says what `raw` is shown as.
pub fn classify(raw: RawEntry) -> (entry: TreeEntry)
    ensures
        entry@ == shown_as(raw.name@, raw.kind, raw.filemode, raw.size),
{
    let RawEntry { name, kind, filemode, size } = raw;
    match kind {
        ObjectKind::Tree => TreeEntry::Dir { name },
        ObjectKind::Commit => TreeEntry::Submodule { name },
        ObjectKind::Blob => if filemode == SYMLINK_MODE {
            TreeEntry::Symlink { name }
        } else {
            TreeEntry::File { name, size }
        },
        ObjectKind::Other => TreeEntry::Other { name },
    }
}

/// An entry with the name by which it is sorted.
#[derive(Debug, Clone, PartialEq, Eq)]
pub struct Keyed {
    pub entry: TreeEntry,
    pub sort_name: String,
}

/// The mathematical content of a [`Keyed`].
pub struct KeyedView {
    pub entry: EntryView,
    pub sort_name: Seq<char>,
}

impl View for Keyed {
    type V = KeyedView;

    open spec fn view(&self) -> KeyedView {
        KeyedView { entry: self.entry@, sort_name: self.sort_name@ }
    }
}

/// The contents of a sequence of keyed entries.
pub open spec fn keyed_views(items: Seq<Keyed>) -> Seq<KeyedView> {
    Seq::new(items.len(), |i: int| items[i]@)
}

/// The contents of a sequence of entries.
pub open spec fn entry_views(entries: Seq<TreeEntry>) -> Seq<EntryView> {
    Seq::new(entries.len(), |i: int| entries[i]@)
}

/// Whether `a` stands before `b` in the dictionary, or is `b`: characters
/// are compared by their code points.
pub open spec fn text_le(a: Seq<char>, b: Seq<char>) -> bool
    decreases a.len(),
{
    if a.len() == 0 {
        true
    } else if b.len() == 0 {
        false
    } else if a[0] != b[0] {
        (a[0] as u32) < (b[0] as u32)
    } else {
        text_le(a.drop_first(), b.drop_first())
    }
}

/// Whether `a` may stand before `b` in a listing: by kind, then by name.
pub open spec fn key_le(a: KeyedView, b: KeyedView) -> bool {
    a.entry.rank() < b.entry.rank() || (a.entry.rank() == b.entry.rank() && text_le(
        a.sort_name,
        b.sort_name,
    ))
}

/// Whether `a` and `b` have the same place in a listing.
pub open spec fn same_key(a: KeyedView, b: KeyedView) -> bool {
    key_le(a, b) && key_le(b, a)
}

/// Whether `items` stand in the order of a listing.
pub open spec fn sorted(items: Seq<KeyedView>) -> bool {
    forall|i: int, j: int| 0 <= i < j < items.len() ==> key_le(#[trigger] items[i], #[trigger] items[j])
}

/// The items of `items` that have the place of `x`, in their order.
pub open spec fn with_key(items: Seq<KeyedView>, x: KeyedView) -> Seq<KeyedView> {
    items.filter(|e: KeyedView| same_key(e, x))
}

/// Whether `output` is `input` sorted, with items of the same place in the
/// order that they had in `input`.
pub open spec fn stable_sort_of(input: Seq<KeyedView>, output: Seq<KeyedView>) -> bool {
    &&& output.len() == input.len()
    &&& sorted(output)
    &&& forall|x: KeyedView| #[trigger] with_key(output, x) == with_key(input, x)
}

/// The entries `entries`, each with its name in lower case to sort it by.
pub open spec fn keyed(entries: Seq<EntryView>) -> Seq<KeyedView> {
    Seq::new(
        entries.len(),
        |i: int| KeyedView { entry: entries[i], sort_name: lowercase_of(entries[i].name()) },
    )
}

proof fn lemma_text_le_total(a: Seq<char>, b: Seq<char>)
    ensures
        text_le(a, b) || text_le(b, a),
    decreases a.len(),
{
    if a.len() > 0 && b.len() > 0 {
        if a[0] == b[0] {
            lemma_text_le_total(a.drop_first(), b.drop_first());
        } else {
            vstd::utf8::char_u32_cast(a[0], a[0] as u32);
            vstd::utf8::char_u32_cast(b[0], b[0] as u32);
        }
    }
}

proof fn lemma_text_le_transitive(a: Seq<char>, b: Seq<char>, c: Seq<char>)
    requires
        text_le(a, b),
        text_le(b, c),
    ensures
        text_le(a, c),
    decreases a.len(),
{
    if a.len() > 0 && b.len() > 0 && c.len() > 0 && a[0] == b[0] && b[0] == c[0] {
        lemma_text_le_transitive(a.drop_first(), b.drop_first(), c.drop_first());
    }
}

/// Of two items one may stand before the other.
pub proof fn lemma_key_le_total(a: KeyedView, b: KeyedView)
    ensures
        key_le(a, b) || key_le(b, a),
{
    lemma_text_le_total(a.sort_name, b.sort_name);
}

/// What may stand before an item may stand before all that the item may
/// stand before.
pub proof fn lemma_key_le_transitive(a: KeyedView, b: KeyedView, c: KeyedView)
    requires
        key_le(a, b),
        key_le(b, c),
    ensures
        key_le(a, c),
{
    if a.entry.rank() == b.entry.rank() && b.entry.rank() == c.entry.rank() {
        lemma_text_le_transitive(a.sort_name, b.sort_name, c.sort_name);
    }
}

/// Whether `a` stands before `b` in the dictionary, or is `b`.
fn lex_le(a: &[char], b: &[char]) -> (r: bool)
    ensures
        r == text_le(a@, b@),
{
    let mut i: usize = 0;
    assert(a@.skip(0) =~= a@ && b@.skip(0) =~= b@);
    loop
        invariant
            i <= a.len(),
            i <= b.len(),
            text_le(a@, b@) == text_le(a@.skip(i as int), b@.skip(i as int)),
        decreases a.len() - i,
    {
        if i == a.len() {
            return true;
        }
        if i == b.len() {
            return false;
        }
        if a[i] != b[i] {
            return (a[i] as u32) < (b[i] as u32);
        }
        assert(a@.skip(i as int).drop_first() =~= a@.skip(i + 1));
        assert(b@.skip(i as int).drop_first() =~= b@.skip(i + 1));
        i += 1;
    }
}

/// Whether `a` may stand before `b` in a listing.
fn keyed_le(a: &Keyed, b: &Keyed) -> (r: bool)
    ensures
        r == key_le(a@, b@),
{
    let ra = a.entry.rank();
    let rb = b.entry.rank();
    if ra != rb {
        return ra < rb;
    }
    let na = chars_of(a.sort_name.as_str());
    let nb = chars_of(b.sort_name.as_str());
    lex_le(na.as_slice(), nb.as_slice())
}

proof fn lemma_insert_keeps_order(
    old: Seq<KeyedView>,
    p: int,
    e: KeyedView,
    seen: Seq<KeyedView>,
)
    requires
        sorted(old),
        0 <= p <= old.len(),
        p == 0 || key_le(old[p - 1], e),
        forall|j: int| p <= j < old.len() ==> !key_le(#[trigger] old[j], e),
        forall|x: KeyedView| #[trigger] with_key(old, x) == with_key(seen, x),
    ensures
        sorted(old.insert(p, e)),
        forall|x: KeyedView| #[trigger] with_key(old.insert(p, e), x) == with_key(seen.push(e), x),
{
    let new = old.insert(p, e);
    assert forall|i: int, j: int| 0 <= i < j < new.len() implies key_le(
        #[trigger] new[i],
        #[trigger] new[j],
    ) by {
        if j < p {
            assert(key_le(old[i], old[j]));
        } else if j == p {
            if i == p - 1 {
            } else {
                assert(key_le(old[i], old[p - 1]));
                lemma_key_le_transitive(old[i], old[p - 1], e);
            }
        } else if i == p {
            assert(!key_le(old[j - 1], e));
            lemma_key_le_total(old[j - 1], e);
        } else if i < p {
            assert(key_le(old[i], old[j - 1]));
        } else {
            assert(key_le(old[i - 1], old[j - 1]));
        }
    }
    assert forall|x: KeyedView| #[trigger] with_key(new, x) == with_key(seen.push(e), x) by {
        let pred = |k: KeyedView| same_key(k, x);
        let before = old.take(p);
        let after = old.skip(p);
        assert(new =~= before.push(e) + after);
        assert(old =~= before + after);
        Seq::filter_distributes_over_add(before.push(e), after, pred);
        Seq::filter_distributes_over_add(before, after, pred);
        before.lemma_filter_push(e, pred);
        seen.lemma_filter_push(e, pred);
        assert(with_key(old, x) == with_key(seen, x));
        if same_key(e, x) {
            assert forall|j: int| 0 <= j < after.len() implies !pred(#[trigger] after[j]) by {
                assert(!key_le(old[p + j], e));
                if same_key(after[j], x) {
                    lemma_key_le_transitive(after[j], x, e);
                }
            }
            assert(after.all(|k: KeyedView| !pred(k)));
            after.lemma_all_neg_filter_empty(pred);
            assert(after.filter(pred) =~= Seq::empty());
            assert(before.filter(pred) + after.filter(pred) =~= before.filter(pred));
            assert(before.filter(pred).push(e) + after.filter(pred) =~= before.filter(pred).push(
                e,
            ));
        }
    }
}

/// Sorts `items` into the order of a listing. Items that have the same place
/// keep their order.
pub fn sort_keyed(items: Vec<Keyed>) -> (out: Vec<Keyed>)
    ensures
        stable_sort_of(keyed_views(items@), keyed_views(out@)),
{
    let ghost input = keyed_views(items@);
    let mut rest = items;
    let mut out: Vec<Keyed> = Vec::new();
    proof {
        assert(keyed_views(rest@) =~= input.skip(0));
        assert(input.take(0) =~= keyed_views(out@));
    }
    while rest.len() > 0
        invariant
            out.len() + rest.len() == input.len(),
            keyed_views(rest@) == input.skip(out.len() as int),
            sorted(keyed_views(out@)),
            forall|x: KeyedView|
                #[trigger] with_key(keyed_views(out@), x) == with_key(
                    input.take(out.len() as int),
                    x,
                ),
        decreases rest.len(),
    {
        let ghost done = out.len() as int;
        let ghost before = keyed_views(out@);
        let ghost rest_before = rest@;
        let e = rest.remove(0);
        let mut p: usize = out.len();
        while p > 0 && !keyed_le(&out[p - 1], &e)
            invariant
                p <= out.len(),
                before == keyed_views(out@),
                forall|j: int| p <= j < out.len() ==> !key_le(#[trigger] before[j], e@),
            decreases p,
        {
            p -= 1;
        }
        proof {
            assert(keyed_views(rest_before)[0] == e@);
            assert(input[done] == e@);
            lemma_insert_keeps_order(before, p as int, e@, input.take(done));
            assert(input.take(done).push(e@) =~= input.take(done + 1));
        }
        out.insert(p, e);
        proof {
            assert(keyed_views(out@) =~= before.insert(p as int, e@));
            assert forall|i: int| 0 <= i < rest@.len() implies keyed_views(rest@)[i]
                == input.skip(done + 1)[i] by {
                assert(keyed_views(rest_before)[i + 1] == input.skip(done)[i + 1]);
            }
            assert(keyed_views(rest@) =~= input.skip(done + 1));
        }
    }
    proof {
        assert(input.take(out.len() as int) =~= input);
    }
    out
}

/// Every item of a stable sort is an item of what was sorted.
proof fn lemma_sorted_item_is_input(input: Seq<KeyedView>, output: Seq<KeyedView>, i: int)
    requires
        stable_sort_of(input, output),
        0 <= i < output.len(),
    ensures
        input.contains(output[i]),
{
    let x = output[i];
    let pred = |e: KeyedView| same_key(e, x);
    lemma_key_le_total(x, x);
    output.lemma_filter_contains(pred, i);
    assert(with_key(output, x) == with_key(input, x));
    input.lemma_filter_contains_rev(pred, x);
}

/// Sorts the entries of a directory for a listing: by kind, then by name in
/// lower case; entries that agree in both keep their order.
pub fn sort_entries(entries: Vec<TreeEntry>) -> (out: Vec<TreeEntry>)
    ensures
        stable_sort_of(keyed(entry_views(entries@)), keyed(entry_views(out@))),
{
    let ghost input = keyed(entry_views(entries@));
    let mut rest = entries;
    let mut items: Vec<Keyed> = Vec::new();
    proof {
        assert(keyed_views(items@) =~= input.take(0));
        assert(keyed(entry_views(rest@)) =~= input.skip(0));
    }
    while rest.len() > 0
        invariant
            items.len() + rest.len() == input.len(),
            keyed_views(items@) == input.take(items.len() as int),
            keyed(entry_views(rest@)) == input.skip(items.len() as int),
        decreases rest.len(),
    {
        let ghost done = items.len() as int;
        let ghost rest_before = rest@;
        let ghost items_before = items@;
        let entry = rest.remove(0);
        let sort_name = to_lowercase(entry.name());
        items.push(Keyed { entry, sort_name });
        proof {
            assert(keyed(entry_views(rest_before))[0] == input.skip(done)[0]);
            assert forall|i: int| 0 <= i < items@.len() implies keyed_views(items@)[i]
                == input.take(done + 1)[i] by {
                if i < done {
                    assert(keyed_views(items_before)[i] == input.take(done)[i]);
                }
            }
            assert(keyed_views(items@) =~= input.take(done + 1));
            assert forall|i: int| 0 <= i < rest@.len() implies keyed(entry_views(rest@))[i]
                == input.skip(done + 1)[i] by {
                assert(keyed(entry_views(rest_before))[i + 1] == input.skip(done)[i + 1]);
            }
            assert(keyed(entry_views(rest@)) =~= input.skip(done + 1));
        }
    }
    proof {
        assert(input.take(items.len() as int) =~= input);
    }
    let mut sorted_items = sort_keyed(items);
    let ghost output = keyed_views(sorted_items@);
    let mut out: Vec<TreeEntry> = Vec::new();
    proof {
        assert(keyed(entry_views(out@)) =~= output.take(0));
        assert(keyed_views(sorted_items@) =~= output.skip(0));
    }
    while sorted_items.len() > 0
        invariant
            out.len() + sorted_items.len() == output.len(),
            stable_sort_of(input, output),
            input == keyed(entry_views(entries@)),
            keyed(entry_views(out@)) == output.take(out.len() as int),
            keyed_views(sorted_items@) == output.skip(out.len() as int),
        decreases sorted_items.len(),
    {
        let ghost done = out.len() as int;
        let ghost items_before = sorted_items@;
        let ghost out_before = out@;
        let item = sorted_items.remove(0);
        proof {
            assert(keyed_views(items_before)[0] == output.skip(done)[0]);
            assert(item@ == output[done]);
            lemma_sorted_item_is_input(input, output, done);
            let j = choose|j: int| 0 <= j < input.len() && input[j] == output[done];
            assert(item@.sort_name == lowercase_of(item@.entry.name()));
        }
        out.push(item.entry);
        proof {
            assert forall|i: int| 0 <= i < out@.len() implies keyed(entry_views(out@))[i]
                == output.take(done + 1)[i] by {
                if i < done {
                    assert(keyed(entry_views(out_before))[i] == output.take(done)[i]);
                }
            }
            assert(keyed(entry_views(out@)) =~= output.take(done + 1));
            assert forall|i: int| 0 <= i < sorted_items@.len() implies keyed_views(
                sorted_items@,
            )[i] == output.skip(done + 1)[i] by {
                assert(keyed_views(items_before)[i + 1] == output.skip(done)[i + 1]);
            }
            assert(keyed_views(sorted_items@) =~= output.skip(done + 1));
        }
    }
    proof {
        assert(output.take(out.len() as int) =~= output);
    }
    out
}

/// The query of a request for a listing.
#[derive(Debug, Clone, PartialEq, Eq)]
pub struct TreeQuery {
    /// A branch, a tag or a commit; `HEAD` where none is given.
    pub reference: Option<String>,
    /// The directory to list; the root where none is given.
    pub path: Option<String>,
}

/// A listing.
#[derive(Debug, Clone, PartialEq, Eq)]
pub struct TreeResponse {
    pub reference: String,
    pub path: String,
    pub is_empty_repo: bool,
    pub entries: Vec<TreeEntry>,
}

/// What was found when the listing was looked up: the first thing that went
/// wrong, or the entries of the directory.
#[derive(Debug, Clone, PartialEq, Eq)]
pub enum TreeLookup {
    /// The store failed, with this error.
    StoreFailed(String),
    /// There is no such project.
    ProjectMissing,
    /// The repository could not be opened, with this error.
    RepoFailed(String),
    /// The reference names nothing, in a repository that has commits.
    InvalidRef,
    /// The reference names nothing, in a repository without commits.
    EmptyRepo,
    /// The reference names neither a commit nor a tree.
    NotATree,
    /// There is nothing at the path.
    PathMissing,
    /// What is at the path is no directory.
    PathNotDirectory,
    /// The entries of the directory, in the order of the repository.
    Entries(Vec<RawEntry>),
}

/// The answer of the endpoint.
#[derive(Debug, Clone, PartialEq, Eq)]
pub enum TreeReply {
    /// An error with this status.
    Failure { status: u16, message: String },
    /// Status 200 with the listing.
    Listing(TreeResponse),
}

/// The reference that a query names.
pub open spec fn reference_of(reference: Option<String>) -> Seq<char> {
    match reference {
        Some(r) => r@,
        None => "HEAD"@,
    }
}

/// The path that a query names.
pub open spec fn path_of(path: Option<String>) -> Seq<char> {
    match path {
        Some(p) => p@,
        None => Seq::empty(),
    }
}

/// The entries that the raw entries `raw` are shown as, in their order.
pub open spec fn shown(raw: Seq<RawEntry>) -> Seq<EntryView> {
    Seq::new(
        raw.len(),
        |i: int| shown_as(raw[i].name@, raw[i].kind, raw[i].filemode, raw[i].size),
    )
}

/// Whether `reply` is the failure with this status and message.
pub open spec fn is_failure(reply: TreeReply, status: u16, message: Seq<char>) -> bool {
    match reply {
        TreeReply::Failure { status: s, message: m } => s == status && m@ == message,
        TreeReply::Listing(_) => false,
    }
}

/// Whether `reply` is a listing for this reference and path.
pub open spec fn is_listing(reply: TreeReply, reference: Seq<char>, path: Seq<char>) -> bool {
    match reply {
        TreeReply::Listing(listing) => listing.reference@ == reference && listing.path@ == path,
        TreeReply::Failure { .. } => false,
    }
}

/// The reference that `query` names: `HEAD` where it names none.
pub fn query_reference(query: &TreeQuery) -> (reference: String)
    ensures
        reference@ == reference_of(query.reference),
{
    match &query.reference {
        Some(r) => r.clone(),
        None => "HEAD".to_owned(),
    }
}

/// The path that `query` names: the root where it names none.
pub fn query_path(query: &TreeQuery) -> (path: String)
    ensures
        path@ == path_of(query.path),
{
    match &query.path {
        Some(p) => p.clone(),
        None => String::new(),
    }
}

/// Answers a request for a listing. A repository without commits gives an
/// empty listing that says so; the entries of a directory are shown by their
/// kind and sorted; everything else is an error.
pub fn get(query: &TreeQuery, lookup: TreeLookup) -> (reply: TreeReply)
    ensures
        match lookup {
            TreeLookup::StoreFailed(e) => is_failure(reply, 500, "Database error: "@ + e@),
            TreeLookup::ProjectMissing => is_failure(reply, 404, "Project not found"@),
            TreeLookup::RepoFailed(e) => is_failure(
                reply,
                500,
                "Failed to open repository: "@ + e@,
            ),
            TreeLookup::InvalidRef => is_failure(reply, 400, "Invalid reference"@),
            TreeLookup::NotATree => is_failure(reply, 400, "Reference is not a tree/commit"@),
            TreeLookup::PathMissing => is_failure(reply, 404, "Path not found"@),
            TreeLookup::PathNotDirectory => is_failure(reply, 400, "Path is not a directory"@),
            TreeLookup::EmptyRepo => {
                &&& is_listing(reply, reference_of(query.reference), path_of(query.path))
                &&& reply->Listing_0.is_empty_repo
                &&& reply->Listing_0.entries@.len() == 0
            },
            TreeLookup::Entries(raw) => {
                &&& is_listing(reply, reference_of(query.reference), path_of(query.path))
                &&& !reply->Listing_0.is_empty_repo
                &&& stable_sort_of(
                    keyed(shown(raw@)),
                    keyed(entry_views(reply->Listing_0.entries@)),
                )
            },
        },
{
    match lookup {
        TreeLookup::StoreFailed(e) => TreeReply::Failure {
            status: 500,
            message: join("Database error: ", e.as_str()),
        },
        TreeLookup::ProjectMissing => TreeReply::Failure {
            status: 404,
            message: "Project not found".to_owned(),
        },
        TreeLookup::RepoFailed(e) => TreeReply::Failure {
            status: 500,
            message: join("Failed to open repository: ", e.as_str()),
        },
        TreeLookup::InvalidRef => TreeReply::Failure {
            status: 400,
            message: "Invalid reference".to_owned(),
        },
        TreeLookup::NotATree => TreeReply::Failure {
            status: 400,
            message: "Reference is not a tree/commit".to_owned(),
        },
        TreeLookup::PathMissing => TreeReply::Failure {
            status: 404,
            message: "Path not found".to_owned(),
        },
        TreeLookup::PathNotDirectory => TreeReply::Failure {
            status: 400,
            message: "Path is not a directory".to_owned(),
        },
        TreeLookup::EmptyRepo => TreeReply::Listing(
            TreeResponse {
                reference: query_reference(query),
                path: query_path(query),
                is_empty_repo: true,
                entries: Vec::new(),
            },
        ),
        TreeLookup::Entries(raw) => {
            let ghost input = shown(raw@);
            let mut rest = raw;
            let mut entries: Vec<TreeEntry> = Vec::new();
            proof {
                assert(entry_views(entries@) =~= input.take(0));
                assert(shown(rest@) =~= input.skip(0));
            }
            while rest.len() > 0
                invariant
                    entries.len() + rest.len() == input.len(),
                    entry_views(entries@) == input.take(entries.len() as int),
                    shown(rest@) == input.skip(entries.len() as int),
                decreases rest.len(),
            {
                let ghost done = entries.len() as int;
                let ghost rest_before = rest@;
                let ghost entries_before = entries@;
                let entry = classify(rest.remove(0));
                entries.push(entry);
                proof {
                    assert(shown(rest_before)[0] == input.skip(done)[0]);
                    assert forall|i: int| 0 <= i < entries@.len() implies entry_views(
                        entries@,
                    )[i] == input.take(done + 1)[i] by {
                        if i < done {
                            assert(entry_views(entries_before)[i] == input.take(done)[i]);
                        }
                    }
                    assert(entry_views(entries@) =~= input.take(done + 1));
                    assert forall|i: int| 0 <= i < rest@.len() implies shown(rest@)[i]
                        == input.skip(done + 1)[i] by {
                        assert(shown(rest_before)[i + 1] == input.skip(done)[i + 1]);
                    }
                    assert(shown(rest@) =~= input.skip(done + 1));
                }
            }
            proof {
                assert(input.take(entries.len() as int) =~= input);
            }
            TreeReply::Listing(
                TreeResponse {
                    reference: query_reference(query),
                    path: query_path(query),
                    is_empty_repo: false,
                    entries: sort_entries(entries),
                },
            )
        },
    }
}

} // verus!
