//! Entries of a directory, as the file picker lists them.

use crate::text::same_text;
use vstd::prelude::*;
use vstd::seq_lib::to_multiset_build;

verus! {

/// One entry of a directory: its name, its kind and where it lies.
#[derive(Debug, Clone, PartialEq, Eq)]
pub struct FileAttributes {
    pub filename: String,
    pub filetype: String,
    pub filepath: String,
}

/// What a `FileAttributes` holds, with texts as plain characters.
pub struct FileAttributesModel {
    pub filename: Seq<char>,
    pub filetype: Seq<char>,
    pub filepath: Seq<char>,
}

impl View for FileAttributes {
    type V = FileAttributesModel;

    open spec fn view(&self) -> FileAttributesModel {
        FileAttributesModel {
            filename: self.filename@,
            filetype: self.filetype@,
            filepath: self.filepath@,
        }
    }
}

impl DeepView for FileAttributes {
    type V = FileAttributesModel;

    open spec fn deep_view(&self) -> FileAttributesModel {
        self.view()
    }
}

impl FileAttributes {
    /// A copy of the entry.
    pub fn duplicate(&self) -> (copy: FileAttributes)
        ensures
            copy@ == self@,
    {
        FileAttributes {
            filename: self.filename.clone(),
            filetype: self.filetype.clone(),
            filepath: self.filepath.clone(),
        }
    }
}

/// What `str::to_lowercase` returns for a text.
pub uninterp spec fn lowercase_of(text: Seq<char>) -> Seq<char>;

/// Calls `str::to_lowercase`, which maps each character to its lowercase
/// form by the Unicode tables. The result is a function of the text alone;
/// nothing more is claimed of it.
#[verifier::external_body]
fn lowercase(text: &str) -> (lower: String)
    ensures
        lower@ == lowercase_of(text@),
{
    text.to_lowercase()
}

/// Whether `a` comes before `b` or equals it, character by character from
/// position `from` on, a shorter text coming before its extensions.
pub open spec fn lex_le_from(a: Seq<char>, b: Seq<char>, from: int) -> bool
    decreases a.len() - from,
{
    if from < 0 || from >= a.len() {
        true
    } else if from >= b.len() {
        false
    } else if (a[from] as u32) < (b[from] as u32) {
        true
    } else if (a[from] as u32) > (b[from] as u32) {
        false
    } else {
        lex_le_from(a, b, from + 1)
    }
}

/// Whether `a` comes before `b` in dictionary order, or equals it.
pub open spec fn lex_le(a: Seq<char>, b: Seq<char>) -> bool {
    lex_le_from(a, b, 0)
}

/// Whether `a` comes before `b` in dictionary order, or equals it.
pub fn text_le(a: &str, b: &str) -> (le: bool)
    ensures
        le == lex_le(a@, b@),
{
    let n = a.unicode_len();
    let m = b.unicode_len();
    let mut i: usize = 0;
    while i < n
        invariant
            i <= n,
            n == a@.len(),
            m == b@.len(),
            lex_le(a@, b@) == lex_le_from(a@, b@, i as int),
        decreases n - i,
    {
        if i >= m {
            return false;
        }
        let x = a.get_char(i) as u32;
        let y = b.get_char(i) as u32;
        if x < y {
            return true;
        }
        if x > y {
            return false;
        }
        i = i + 1;
    }
    true
}

impl FileAttributesModel {
    /// The group of the entry: the two pinned names first, then
    /// directories, then everything else.
    pub open spec fn rank(self) -> nat {
        if self.filename == "."@ || self.filename == ".."@ {
            0
        } else if self.filetype == "Dir"@ {
            1
        } else {
            2
        }
    }

    /// The name by which the entry is ordered inside its group: as it is
    /// for the two pinned names, in lowercase for the others.
    pub open spec fn sort_name(self) -> Seq<char> {
        if self.rank() == 0 {
            self.filename
        } else {
            lowercase_of(self.filename)
        }
    }

    /// Whether the entry is listed before `other`, or may stand where it stands.
    pub open spec fn before_or_equal(self, other: FileAttributesModel) -> bool {
        self.rank() < other.rank() || (self.rank() == other.rank() && lex_le(
            self.sort_name(),
            other.sort_name(),
        ))
    }
}

/// A sorted listing with one more entry: it goes behind every entry that is
/// listed before it or may stand where it stands.
pub open spec fn inserted(sorted: Seq<FileAttributesModel>, entry: FileAttributesModel) -> Seq<
    FileAttributesModel,
>
    decreases sorted.len(),
{
    if sorted.len() == 0 {
        seq![entry]
    } else if sorted.last().before_or_equal(entry) {
        sorted.push(entry)
    } else {
        inserted(sorted.drop_last(), entry).push(sorted.last())
    }
}

/// The entries in the order of the listing: `.` and `..` first, then
/// directories, then the rest, each group by name without regard to case.
/// Entries that the order does not tell apart keep the order they came in.
pub open spec fn ordered(entries: Seq<FileAttributesModel>) -> Seq<FileAttributesModel>
    decreases entries.len(),
{
    if entries.len() == 0 {
        Seq::empty()
    } else {
        inserted(ordered(entries.drop_last()), entries.last())
    }
}

/// Whether every entry of a listing is before or equal to each one after it.
pub open spec fn is_ordered(entries: Seq<FileAttributesModel>) -> bool {
    forall|i: int, j: int|
        0 <= i < j < entries.len() ==> (#[trigger] entries[i]).before_or_equal(
            #[trigger] entries[j],
        )
}

/// The listing with the two pinned entries in front of what was read.
pub open spec fn with_pinned(entries: Seq<FileAttributesModel>) -> Seq<FileAttributesModel> {
    seq![
        FileAttributesModel { filename: "."@, filetype: "Dir"@, filepath: "."@ },
        FileAttributesModel { filename: ".."@, filetype: "Dir"@, filepath: ".."@ },
    ] + entries
}

/// The group of an entry.
fn rank_of(entry: &FileAttributes) -> (rank: u8)
    ensures
        rank == entry@.rank(),
{
    if same_text(entry.filename.as_str(), ".") || same_text(entry.filename.as_str(), "..") {
        0
    } else if same_text(entry.filetype.as_str(), "Dir") {
        1
    } else {
        2
    }
}

/// Whether `a` is listed before `b`, or may stand where it stands.
pub fn listed_before_or_equal(a: &FileAttributes, b: &FileAttributes) -> (le: bool)
    ensures
        le == a@.before_or_equal(b@),
{
    let ra = rank_of(a);
    let rb = rank_of(b);
    if ra < rb {
        true
    } else if ra > rb {
        false
    } else if ra == 0 {
        text_le(a.filename.as_str(), b.filename.as_str())
    } else {
        let la = lowercase(a.filename.as_str());
        let lb = lowercase(b.filename.as_str());
        text_le(la.as_str(), lb.as_str())
    }
}

proof fn lemma_inserted_at(
    front: Seq<FileAttributesModel>,
    back: Seq<FileAttributesModel>,
    entry: FileAttributesModel,
)
    requires
        front.len() > 0 ==> front.last().before_or_equal(entry),
        forall|k: int| 0 <= k < back.len() ==> !(#[trigger] back[k]).before_or_equal(entry),
    ensures
        inserted(front + back, entry) == front.push(entry) + back,
    decreases back.len(),
{
    if back.len() == 0 {
        assert(front + back =~= front);
        assert(front.push(entry) + back =~= front.push(entry));
        if front.len() == 0 {
            assert(front.push(entry) =~= seq![entry]);
        }
    } else {
        let whole = front + back;
        assert(whole.last() == back.last());
        assert(whole.drop_last() =~= front + back.drop_last());
        lemma_inserted_at(front, back.drop_last(), entry);
        assert((front.push(entry) + back.drop_last()).push(back.last()) =~= front.push(entry)
            + back);
    }
}

/// Puts one more entry into a sorted listing.
fn insert_entry(sorted: &mut Vec<FileAttributes>, entry: FileAttributes)
    ensures
        final(sorted).deep_view() == inserted(old(sorted).deep_view(), entry@),
{
    let ghost before = sorted.deep_view();
    let mut at: usize = sorted.len();
    while at > 0 && !listed_before_or_equal(&sorted[at - 1], &entry)
        invariant
            at <= sorted@.len(),
            sorted@ == old(sorted)@,
            before == sorted.deep_view(),
            forall|k: int| at <= k < before.len(
                ) ==> !(#[trigger] before[k]).before_or_equal(entry@,
            ),
        decreases at,
    {
        at = at - 1;
    }
    proof {
        let front = before.subrange(0, at as int);
        let back = before.subrange(at as int, before.len() as int);
        assert(front + back =~= before);
        lemma_inserted_at(front, back, entry@);
    }
    sorted.insert(at, entry);
    assert(sorted.deep_view() =~= before.subrange(0, at as int).push(entry@) + before.subrange(
        at as int,
        before.len() as int,
    ));
}

/// Puts the entries of a directory into the order of the listing: `.` and
/// `..` first, then directories, then the rest, each group by name without
/// regard to case.
pub fn sort_files(entries: &Vec<FileAttributes>) -> (listing: Vec<FileAttributes>)
    ensures
        listing.deep_view() == ordered(entries.deep_view()),
{
    let ghost all = entries.deep_view();
    let mut listing: Vec<FileAttributes> = Vec::new();
    assert(listing.deep_view() =~= ordered(all.subrange(0, 0)));
    let mut i: usize = 0;
    while i < entries.len()
        invariant
            i <= entries@.len(),
            all == entries.deep_view(),
            listing.deep_view() == ordered(all.subrange(0, i as int)),
        decreases entries@.len() - i,
    {
        insert_entry(&mut listing, entries[i].duplicate());
        proof {
            let next = all.subrange(0, i + 1);
            assert(next.drop_last() =~= all.subrange(0, i as int));
            assert(next.last() == entries@[i as int]@);
        }
        i = i + 1;
    }
    assert(all.subrange(0, i as int) =~= all);
    listing
}

/// The listing of a directory of which `entries` were read: `.` and `..`
/// are added, and all is put into the order of the listing.
pub fn get_files(entries: &Vec<FileAttributes>) -> (listing: Vec<FileAttributes>)
    ensures
        listing.deep_view() == ordered(with_pinned(entries.deep_view())),
{
    let mut all: Vec<FileAttributes> = Vec::new();
    all.push(
        FileAttributes {
            filename: String::from_str("."),
            filetype: String::from_str("Dir"),
            filepath: String::from_str("."),
        },
    );
    all.push(
        FileAttributes {
            filename: String::from_str(".."),
            filetype: String::from_str("Dir"),
            filepath: String::from_str(".."),
        },
    );
    let mut i: usize = 0;
    while i < entries.len()
        invariant
            i <= entries@.len(),
            all.deep_view() == with_pinned(entries.deep_view().subrange(0, i as int)),
        decreases entries@.len() - i,
    {
        let ghost before = all.deep_view();
        all.push(entries[i].duplicate());
        assert(all.deep_view() =~= before.push(entries@[i as int]@));
        assert(entries.deep_view().subrange(0, i + 1) =~= entries.deep_view().subrange(
            0,
            i as int,
        ).push(entries@[i as int]@));
        i = i + 1;
        assert(all.deep_view() =~= with_pinned(entries.deep_view().subrange(0, i as int)));
    }
    assert(entries.deep_view().subrange(0, i as int) =~= entries.deep_view());
    sort_files(&all)
}

/// Of two texts one is before the other or equal to it.
proof fn lemma_lex_total(a: Seq<char>, b: Seq<char>, from: int)
    requires
        from >= 0,
    ensures
        lex_le_from(a, b, from) || lex_le_from(b, a, from),
    decreases a.len() - from,
{
    if from < a.len() && from < b.len() && a[from] as u32 == b[from] as u32 {
        lemma_lex_total(a, b, from + 1);
    }
}

/// What is before a text is before everything the text is before.
proof fn lemma_lex_transitive(a: Seq<char>, b: Seq<char>, c: Seq<char>, from: int)
    requires
        from >= 0,
        lex_le_from(a, b, from),
        lex_le_from(b, c, from),
    ensures
        lex_le_from(a, c, from),
    decreases a.len() - from,
{
    if from < a.len() {
        if a[from] as u32 == b[from] as u32 && b[from] as u32 == c[from] as u32 {
            lemma_lex_transitive(a, b, c, from + 1);
        }
    }
}

/// Of two entries one is listed before the other or may stand where it stands.
pub proof fn lemma_order_total(a: FileAttributesModel, b: FileAttributesModel)
    ensures
        a.before_or_equal(b) || b.before_or_equal(a),
{
    lemma_lex_total(a.sort_name(), b.sort_name(), 0);
}

/// The order of the listing is transitive.
pub proof fn lemma_order_transitive(
    a: FileAttributesModel,
    b: FileAttributesModel,
    c: FileAttributesModel,
)
    requires
        a.before_or_equal(b),
        b.before_or_equal(c),
    ensures
        a.before_or_equal(c),
{
    if a.rank() == b.rank() && b.rank() == c.rank() {
        lemma_lex_transitive(a.sort_name(), b.sort_name(), c.sort_name(), 0);
    }
}

proof fn lemma_inserted_bounded(
    sorted: Seq<FileAttributesModel>,
    entry: FileAttributesModel,
    bound: FileAttributesModel,
)
    requires
        entry.before_or_equal(bound),
        forall|k: int| 0 <= k < sorted.len() ==> (#[trigger] sorted[k]).before_or_equal(bound),
    ensures
        inserted(sorted, entry).len() == sorted.len() + 1,
        forall|k: int|
            0 <= k < inserted(sorted, entry).len() ==> (#[trigger] inserted(
                sorted,
                entry,
            )[k]).before_or_equal(bound),
    decreases sorted.len(),
{
    if sorted.len() > 0 && !sorted.last().before_or_equal(entry) {
        let front = sorted.drop_last();
        assert forall|k: int| 0 <= k < front.len() implies (#[trigger] front[k]).before_or_equal(
            bound,
        ) by {
            assert(front[k] == sorted[k]);
        }
        lemma_inserted_bounded(front, entry, bound);
    }
}

proof fn lemma_inserted_ordered(sorted: Seq<FileAttributesModel>, entry: FileAttributesModel)
    requires
        is_ordered(sorted),
    ensures
        is_ordered(inserted(sorted, entry)),
        inserted(sorted, entry).to_multiset() == sorted.to_multiset().insert(entry),
    decreases sorted.len(),
{
    broadcast use to_multiset_build;

    let result = inserted(sorted, entry);
    if sorted.len() == 0 {
        assert(sorted =~= Seq::empty());
        assert(result =~= Seq::<FileAttributesModel>::empty().push(entry));
    } else if sorted.last().before_or_equal(entry) {
        assert forall|i: int, j: int| 0 <= i < j < result.len() implies
            (#[trigger] result[i]).before_or_equal(
            #[trigger] result[j],
        ) by {
            if j == sorted.len() {
                if i < sorted.len() - 1 {
                    assert(sorted[i].before_or_equal(sorted[sorted.len() - 1]));
                    lemma_order_transitive(sorted[i], sorted.last(), entry);
                }
            } else {
                assert(sorted[i].before_or_equal(sorted[j]));
            }
        }
    } else {
        let front = sorted.drop_last();
        let last = sorted.last();
        assert(sorted =~= front.push(last));
        assert forall|i: int, j: int| 0 <= i < j < front.len() implies
            (#[trigger] front[i]).before_or_equal(
            #[trigger] front[j],
        ) by {
            assert(sorted[i].before_or_equal(sorted[j]));
        }
        lemma_inserted_ordered(front, entry);
        lemma_order_total(last, entry);
        assert forall|k: int| 0 <= k < front.len() implies (#[trigger] front[k]).before_or_equal(
            last,
        ) by {
            assert(sorted[k].before_or_equal(sorted[sorted.len() - 1]));
        }
        lemma_inserted_bounded(front, entry, last);
        let middle = inserted(front, entry);
        assert forall|i: int, j: int| 0 <= i < j < result.len() implies
            (#[trigger] result[i]).before_or_equal(
            #[trigger] result[j],
        ) by {
            if j == middle.len() {
                assert(middle[i].before_or_equal(last));
            } else {
                assert(middle[i].before_or_equal(middle[j]));
            }
        }
        assert(result.to_multiset() =~= sorted.to_multiset().insert(entry));
    }
}

/// The listing is in order, and it holds the entries that were given, each
/// as often as it was given.
pub proof fn lemma_listing_is_ordered(entries: Seq<FileAttributesModel>)
    ensures
        is_ordered(ordered(entries)),
        ordered(entries).to_multiset() == entries.to_multiset(),
        ordered(entries).len() == entries.len(),
    decreases entries.len(),
{
    broadcast use to_multiset_build;

    if entries.len() == 0 {
        assert(entries =~= Seq::empty());
    } else {
        let front = entries.drop_last();
        lemma_listing_is_ordered(front);
        lemma_inserted_ordered(ordered(front), entries.last());
        assert(entries =~= front.push(entries.last()));
        lemma_inserted_length(ordered(front), entries.last());
    }
}

proof fn lemma_inserted_length(sorted: Seq<FileAttributesModel>, entry: FileAttributesModel)
    ensures
        inserted(sorted, entry).len() == sorted.len() + 1,
    decreases sorted.len(),
{
    if sorted.len() > 0 && !sorted.last().before_or_equal(entry) {
        lemma_inserted_length(sorted.drop_last(), entry);
    }
}

} // verus!
