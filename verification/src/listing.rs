//! The entries of a folder as a panel lists them, and the order they are
//! listed in: directories first, then by name, kind, size or time.

use vstd::prelude::*;
use crate::cli::last_index_of;
use crate::state::{SortBy, SortOrder};
use crate::text::{chars_of, lowercase_of, string_of, subvec, to_lowercase};

verus! {

/// One entry of a folder.
#[derive(Debug, Clone, PartialEq, Eq)]
pub struct FileItem {
    pub name: String,
    pub is_directory: bool,
    /// The size in bytes; 0 for a directory.
    pub size: u64,
    /// When the entry was last changed, as the file system counts time.
    pub modified: i64,
    /// The rights on the entry, as nine letters.
    pub permissions: String,
}

/// A `FileItem` with its texts as character sequences.
pub struct ItemView {
    pub name: Seq<char>,
    pub is_directory: bool,
    pub size: u64,
    pub modified: i64,
    pub permissions: Seq<char>,
}

impl View for FileItem {
    type V = ItemView;

    open spec fn view(&self) -> ItemView {
        ItemView {
            name: self.name@,
            is_directory: self.is_directory,
            size: self.size,
            modified: self.modified,
            permissions: self.permissions@,
        }
    }
}

/// The views of a list of entries.
pub open spec fn item_views(v: Seq<FileItem>) -> Seq<ItemView> {
    v.map_values(|i: FileItem| i@)
}

/// How two texts stand in the order of the dictionary, character by
/// character: below 0 where `a` comes first, above where `b` does, 0 where
/// they are the same.
pub open spec fn text_order(a: Seq<char>, b: Seq<char>) -> int
    decreases a.len(),
{
    if a.len() == 0 {
        if b.len() == 0 {
            0
        } else {
            -1
        }
    } else if b.len() == 0 {
        1
    } else if a[0] < b[0] {
        -1
    } else if a[0] > b[0] {
        1
    } else {
        text_order(a.drop_first(), b.drop_first())
    }
}

/// Two texts are in no order only where they are the same text.
pub proof fn lemma_text_order_same(a: Seq<char>, b: Seq<char>)
    ensures
        text_order(a, b) == 0 <==> a == b,
    decreases a.len(),
{
    if a.len() > 0 && b.len() > 0 && a[0] == b[0] {
        lemma_text_order_same(a.drop_first(), b.drop_first());
        if a.drop_first() == b.drop_first() {
            assert(a =~= seq![a[0]] + a.drop_first());
            assert(b =~= seq![b[0]] + b.drop_first());
        }
    } else if a.len() == 0 && b.len() == 0 {
        assert(a =~= b);
    }
}

/// The order of two texts turns round with the texts.
pub proof fn lemma_text_order_turns(a: Seq<char>, b: Seq<char>)
    ensures
        text_order(a, b) < 0 <==> text_order(b, a) > 0,
        text_order(a, b) == 0 <==> text_order(b, a) == 0,
    decreases a.len(),
{
    if a.len() > 0 && b.len() > 0 && a[0] == b[0] {
        lemma_text_order_turns(a.drop_first(), b.drop_first());
    }
}

/// The order of texts carries over: what comes no later than a second text,
/// which comes no later than a third, comes no later than the third; and
/// comes before it where one of the two steps is a step forward.
pub proof fn lemma_text_order_carries(a: Seq<char>, b: Seq<char>, c: Seq<char>)
    requires
        text_order(a, b) <= 0,
        text_order(b, c) <= 0,
    ensures
        text_order(a, c) <= 0,
        text_order(a, b) < 0 || text_order(b, c) < 0 ==> text_order(a, c) < 0,
    decreases a.len(),
{
    if a.len() > 0 && b.len() > 0 && c.len() > 0 && a[0] == b[0] && b[0] == c[0] {
        lemma_text_order_carries(a.drop_first(), b.drop_first(), c.drop_first());
    }
}

/// What an entry is listed by.
pub struct SortKey {
    pub is_directory: bool,
    pub text: Seq<char>,
    pub number: int,
}

/// The ending of a file name: what stands behind its last full stop. A
/// name has none where it has no full stop, or only the one it begins
/// with; and the name of the folder above has none.
pub open spec fn ending_of(name: Seq<char>) -> Option<Seq<char>> {
    if name == ".."@ {
        None
    } else {
        match last_index_of(name, '.', name.len() as int) {
            Some(i) => if i >= 1 {
                Some(name.subrange(i + 1, name.len() as int))
            } else {
                None
            },
            None => None,
        }
    }
}

/// The ending of a file name, empty where it has none.
pub open spec fn extension_of(name: Seq<char>) -> Seq<char> {
    match ending_of(name) {
        Some(e) => e,
        None => Seq::empty(),
    }
}

/// What the entry `item` is listed by in a panel sorted by `by`: its name or
/// the ending of its name, in lower case, or its size or time.
pub open spec fn key_of(item: ItemView, by: SortBy) -> SortKey {
    match by {
        SortBy::Name => SortKey {
            is_directory: item.is_directory,
            text: lowercase_of(item.name),
            number: 0,
        },
        SortBy::Type => SortKey {
            is_directory: item.is_directory,
            text: lowercase_of(extension_of(item.name)),
            number: 0,
        },
        SortBy::Size => SortKey {
            is_directory: item.is_directory,
            text: Seq::empty(),
            number: item.size as int,
        },
        SortBy::Modified => SortKey {
            is_directory: item.is_directory,
            text: Seq::empty(),
            number: item.modified as int,
        },
    }
}

/// How two keys stand in ascending order, directories aside: by their
/// texts, and by their numbers where the texts are the same.
pub open spec fn key_order(a: SortKey, b: SortKey) -> int {
    if text_order(a.text, b.text) != 0 {
        text_order(a.text, b.text)
    } else if a.number < b.number {
        -1
    } else if a.number > b.number {
        1
    } else {
        0
    }
}

/// Whether an entry with the key `a` may stand before one with the key
/// `b`: a directory stands before anything that is none; otherwise the
/// keys decide, in the direction `order`.
pub open spec fn may_precede(a: SortKey, b: SortKey, order: SortOrder) -> bool {
    if a.is_directory != b.is_directory {
        a.is_directory
    } else {
        match order {
            SortOrder::Asc => key_order(a, b) <= 0,
            SortOrder::Desc => key_order(a, b) >= 0,
        }
    }
}

/// Of two entries, one may stand before the other.
pub proof fn lemma_precede_total(a: SortKey, b: SortKey, order: SortOrder)
    ensures
        may_precede(a, b, order) || may_precede(b, a, order),
{
    lemma_text_order_turns(a.text, b.text);
}

/// What may stand before a second entry, which may stand before a third,
/// may stand before the third.
pub proof fn lemma_precede_carries(a: SortKey, b: SortKey, c: SortKey, order: SortOrder)
    requires
        may_precede(a, b, order),
        may_precede(b, c, order),
    ensures
        may_precede(a, c, order),
{
    if a.is_directory == b.is_directory && b.is_directory == c.is_directory {
        lemma_text_order_turns(a.text, b.text);
        lemma_text_order_turns(b.text, c.text);
        lemma_text_order_turns(a.text, c.text);
        match order {
            SortOrder::Asc => {
                lemma_text_order_carries(a.text, b.text, c.text);
                if text_order(a.text, b.text) == 0 && text_order(b.text, c.text) == 0 {
                    lemma_text_order_same(a.text, b.text);
                    lemma_text_order_same(b.text, c.text);
                    lemma_text_order_same(a.text, c.text);
                }
            },
            SortOrder::Desc => {
                lemma_text_order_carries(c.text, b.text, a.text);
                if text_order(a.text, b.text) == 0 && text_order(b.text, c.text) == 0 {
                    lemma_text_order_same(a.text, b.text);
                    lemma_text_order_same(b.text, c.text);
                    lemma_text_order_same(a.text, c.text);
                }
            },
        }
    }
}

/// Every entry of `items` may stand before those that follow it.
pub open spec fn in_order(items: Seq<ItemView>, by: SortBy, order: SortOrder) -> bool {
    forall|i: int, j: int|
        0 <= i < j < items.len() ==> may_precede(
            key_of(#[trigger] items[i], by),
            key_of(#[trigger] items[j], by),
            order,
        )
}

/// Where `item` goes into the ordered list `sorted`: before the first
/// entry that it may stand before.
pub open spec fn place_of(sorted: Seq<ItemView>, item: ItemView, by: SortBy, order: SortOrder) -> int
    decreases sorted.len(),
{
    if sorted.len() == 0 || may_precede(key_of(item, by), key_of(sorted[0], by), order) {
        0
    } else {
        1 + place_of(sorted.drop_first(), item, by, order)
    }
}

/// The entries `items` in the order they are listed in. Entries that may
/// stand either way round keep the order they came in.
pub open spec fn listed(items: Seq<ItemView>, by: SortBy, order: SortOrder) -> Seq<ItemView>
    decreases items.len(),
{
    if items.len() == 0 {
        Seq::empty()
    } else {
        let rest = listed(items.drop_first(), by, order);
        rest.insert(place_of(rest, items[0], by, order), items[0])
    }
}

/// The place found for an entry lies in the list; every entry before it
/// may not be preceded by the new one, and the entry at it may.
pub proof fn lemma_place_of(sorted: Seq<ItemView>, item: ItemView, by: SortBy, order: SortOrder)
    ensures
        0 <= place_of(sorted, item, by, order) <= sorted.len(),
        forall|i: int|
            0 <= i < place_of(sorted, item, by, order) ==> !may_precede(
                key_of(item, by),
                key_of(#[trigger] sorted[i], by),
                order,
            ),
        place_of(sorted, item, by, order) < sorted.len() ==> may_precede(
            key_of(item, by),
            key_of(sorted[place_of(sorted, item, by, order)], by),
            order,
        ),
    decreases sorted.len(),
{
    if !(sorted.len() == 0 || may_precede(key_of(item, by), key_of(sorted[0], by), order)) {
        lemma_place_of(sorted.drop_first(), item, by, order);
        let p = place_of(sorted.drop_first(), item, by, order);
        assert forall|i: int| 0 <= i < 1 + p implies !may_precede(
            key_of(item, by),
            key_of(#[trigger] sorted[i], by),
            order,
        ) by {
            if i > 0 {
                assert(sorted[i] == sorted.drop_first()[i - 1]);
            }
        }
        if 1 + p < sorted.len() {
            assert(sorted[1 + p] == sorted.drop_first()[p]);
        }
    }
}

/// The list is in order, and holds the entries it was made of, each as
/// often as it came.
pub proof fn lemma_listed(items: Seq<ItemView>, by: SortBy, order: SortOrder)
    ensures
        in_order(listed(items, by, order), by, order),
        listed(items, by, order).to_multiset() == items.to_multiset(),
        listed(items, by, order).len() == items.len(),
    decreases items.len(),
{
    broadcast use vstd::seq_lib::group_to_multiset_ensures;

    if items.len() == 0 {
        assert(items =~= Seq::<ItemView>::empty());
    } else {
        let rest = listed(items.drop_first(), by, order);
        lemma_listed(items.drop_first(), by, order);
        let x = items[0];
        let p = place_of(rest, x, by, order);
        lemma_place_of(rest, x, by, order);
        let out = rest.insert(p, x);
        assert forall|i: int, j: int| 0 <= i < j < out.len() implies may_precede(
            key_of(#[trigger] out[i], by),
            key_of(#[trigger] out[j], by),
            order,
        ) by {
            if j < p {
                assert(out[i] == rest[i] && out[j] == rest[j]);
            } else if j == p {
                assert(out[i] == rest[i]);
                lemma_precede_total(key_of(x, by), key_of(rest[i], by), order);
            } else if i < p {
                assert(out[i] == rest[i] && out[j] == rest[j - 1]);
                if i < j - 1 {
                } else {
                    lemma_precede_total(key_of(x, by), key_of(rest[i], by), order);
                    lemma_precede_carries(
                        key_of(rest[i], by),
                        key_of(x, by),
                        key_of(rest[p], by),
                        order,
                    );
                }
            } else if i == p {
                assert(out[j] == rest[j - 1]);
                if j - 1 > p {
                    lemma_precede_carries(
                        key_of(x, by),
                        key_of(rest[p], by),
                        key_of(rest[j - 1], by),
                        order,
                    );
                }
            } else {
                assert(out[i] == rest[i - 1] && out[j] == rest[j - 1]);
            }
        }
        vstd::seq_lib::to_multiset_insert(rest, p, x);
        assert(items =~= seq![x] + items.drop_first());
        assert(items.to_multiset() =~= items.drop_first().to_multiset().insert(x)) by {
            assert(items.first() == x);
            vstd::seq_lib::to_multiset_insert(items.drop_first(), 0, x);
            assert(items.drop_first().insert(0, x) =~= items);
        }
    }
}


/// How the texts `a` and `b` stand in the order of the dictionary.
pub fn compare_texts(a: &Vec<char>, b: &Vec<char>) -> (r: i8)
    ensures
        r == text_order(a@, b@),
{
    let mut i: usize = 0;
    assert(a@.subrange(0, a.len() as int) == a@);
    assert(b@.subrange(0, b.len() as int) == b@);
    while i < a.len() && i < b.len()
        invariant
            i <= a.len(),
            i <= b.len(),
            text_order(a@, b@) == text_order(
                a@.subrange(i as int, a.len() as int),
                b@.subrange(i as int, b.len() as int),
            ),
        decreases a.len() - i,
    {
        assert(a@.subrange(i as int, a.len() as int).drop_first() == a@.subrange(
            i + 1,
            a.len() as int,
        ));
        assert(b@.subrange(i as int, b.len() as int).drop_first() == b@.subrange(
            i + 1,
            b.len() as int,
        ));
        if a[i] < b[i] {
            return -1;
        } else if a[i] > b[i] {
            return 1;
        }
        i += 1;
    }
    if i < b.len() {
        -1
    } else if i < a.len() {
        1
    } else {
        0
    }
}

/// The ending of the file name `name`, empty where it has none.
pub fn extension(name: &str) -> (ext: String)
    ensures
        ext@ == extension_of(name@),
{
    match file_ending(name) {
        Some(e) => e,
        None => String::new(),
    }
}

/// The ending of the file name `name`: what stands behind its last full stop.
pub fn file_ending(name: &str) -> (ext: Option<String>)
    ensures
        crate::archive_job::opt_text(ext) == ending_of(name@),
{
    if crate::text::str_eq(name, "..") {
        return None;
    }
    let v = chars_of(name);
    let mut i: usize = v.len();
    let mut found = false;
    while i > 0 && !found
        invariant
            i <= v.len(),
            !found ==> last_index_of(v@, '.', v@.len() as int) == last_index_of(v@, '.', i as int),
            found ==> i >= 1 && last_index_of(v@, '.', v@.len() as int) == Some(i - 1),
        decreases i + (if found { 0int } else { 1 }),
    {
        if v[i - 1] == '.' {
            found = true;
        } else {
            i -= 1;
        }
    }
    if found && i - 1 >= 1 {
        Some(string_of(&subvec(&v, i, v.len())))
    } else {
        None
    }
}

/// What an entry is listed by, as the program holds it.
pub struct ListKey {
    pub is_directory: bool,
    pub text: Vec<char>,
    pub number: i128,
}

impl View for ListKey {
    type V = SortKey;

    open spec fn view(&self) -> SortKey {
        SortKey { is_directory: self.is_directory, text: self.text@, number: self.number as int }
    }
}

/// What the entry `item` is listed by in a panel sorted by `by`.
pub fn sort_key(item: &FileItem, by: SortBy) -> (k: ListKey)
    ensures
        k@ == key_of(item@, by),
{
    match by {
        SortBy::Name => ListKey {
            is_directory: item.is_directory,
            text: chars_of(to_lowercase(item.name.as_str()).as_str()),
            number: 0,
        },
        SortBy::Type => {
            let ext = extension(item.name.as_str());
            ListKey {
                is_directory: item.is_directory,
                text: chars_of(to_lowercase(ext.as_str()).as_str()),
                number: 0,
            }
        },
        SortBy::Size => ListKey {
            is_directory: item.is_directory,
            text: Vec::new(),
            number: item.size as i128,
        },
        SortBy::Modified => ListKey {
            is_directory: item.is_directory,
            text: Vec::new(),
            number: item.modified as i128,
        },
    }
}

/// Whether an entry with the key `a` may stand before one with the key `b`.
pub fn precedes(a: &ListKey, b: &ListKey, order: SortOrder) -> (r: bool)
    ensures
        r == may_precede(a@, b@, order),
{
    if a.is_directory != b.is_directory {
        return a.is_directory;
    }
    let by_text = compare_texts(&a.text, &b.text);
    let c: i8 = if by_text != 0 {
        by_text
    } else if a.number < b.number {
        -1
    } else if a.number > b.number {
        1
    } else {
        0
    };
    match order {
        SortOrder::Asc => c <= 0,
        SortOrder::Desc => c >= 0,
    }
}

/// Puts `items` in the order they are listed in: directories first, then
/// by `by` in the direction `order`; entries that may stand either way
/// round keep the order they came in.
pub fn sort_items(items: Vec<FileItem>, by: SortBy, order: SortOrder) -> (out: Vec<FileItem>)
    ensures
        item_views(out@) == listed(item_views(items@), by, order),
        in_order(item_views(out@), by, order),
        item_views(out@).to_multiset() == item_views(items@).to_multiset(),
        out@.len() == items@.len(),
{
    let ghost all = item_views(items@);
    proof {
        lemma_listed(all, by, order);
    }
    let mut rest = items;
    let mut out: Vec<FileItem> = Vec::new();
    let mut keys: Vec<ListKey> = Vec::new();
    assert(all.subrange(all.len() as int, all.len() as int) =~= Seq::<ItemView>::empty());
    assert(item_views(out@) =~= Seq::<ItemView>::empty());
    assert(all.len() == rest@.len());
    while rest.len() > 0
        invariant
            rest@.len() <= all.len(),
            item_views(rest@) == all.subrange(0, rest@.len() as int),
            item_views(out@) == listed(
                all.subrange(rest@.len() as int, all.len() as int),
                by,
                order,
            ),
            keys@.len() == out@.len(),
            forall|i: int| 0 <= i < keys@.len() ==> (#[trigger] keys@[i])@ == key_of(out@[i]@, by),
        decreases rest@.len(),
    {
        let ghost n = rest@.len() as int;
        let ghost before = item_views(rest@);
        let item = match rest.pop() {
            Some(item) => item,
            None => {
                return out;
            },
        };
        assert(item@ == before[n - 1]);
        assert(item@ == all[n - 1]);
        assert(item_views(rest@) =~= all.subrange(0, n - 1));
        let key = sort_key(&item, by);
        let ghost sorted = item_views(out@);
        assert(sorted.len() == out@.len());
        let mut p: usize = 0;
        assert(sorted.subrange(0, sorted.len() as int) == sorted);
        while p < keys.len() && !precedes(&key, &keys[p], order)
            invariant
                p <= keys@.len(),
                keys@.len() == out@.len(),
                sorted == item_views(out@),
                sorted.len() == out@.len(),
                key@ == key_of(item@, by),
                forall|i: int|
                    0 <= i < keys@.len() ==> (#[trigger] keys@[i])@ == key_of(out@[i]@, by),
                place_of(sorted, item@, by, order) == p + place_of(
                    sorted.subrange(p as int, sorted.len() as int),
                    item@,
                    by,
                    order,
                ),
            decreases keys@.len() - p,
        {
            assert(sorted.subrange(p as int, sorted.len() as int)[0] == out@[p as int]@);
            assert(sorted.subrange(p as int, sorted.len() as int).drop_first() == sorted.subrange(
                p + 1,
                sorted.len() as int,
            ));
            p += 1;
        }
        proof {
            if p < keys.len() {
                assert(sorted.subrange(p as int, sorted.len() as int)[0] == out@[p as int]@);
            }
            assert(place_of(sorted, item@, by, order) == p);
            assert(all.subrange(n - 1, all.len() as int).drop_first() == all.subrange(
                n,
                all.len() as int,
            ));
            assert(all.subrange(n - 1, all.len() as int)[0] == item@);
        }
        let ghost inserted = sorted.insert(p as int, item@);
        keys.insert(p, key);
        out.insert(p, item);
        assert(item_views(out@) =~= inserted);
    }
    assert(all.subrange(0, all.len() as int) == all);
    out
}

} // verus!
