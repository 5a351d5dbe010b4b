//! Listings for the file browser: which entries are shown, in what order, and
//! where removable drives are looked for.

use vstd::prelude::*;

verus! {

/// What a listed item is.
#[derive(Debug, Clone, Copy, PartialEq, Eq, Structural)]
pub enum ItemKind {
    Dir,
    File,
    Drive,
}

impl ItemKind {
    /// The label the browser shows for the kind.
    pub fn label(&self) -> (r: &'static str)
        ensures
            *self == ItemKind::Dir ==> r@ == "dir"@,
            *self == ItemKind::File ==> r@ == "file"@,
            *self == ItemKind::Drive ==> r@ == "drive"@,
    {
        match self {
            ItemKind::Dir => "dir",
            ItemKind::File => "file",
            ItemKind::Drive => "drive",
        }
    }
}

/// One item of a listing.
#[derive(Debug, Clone, PartialEq, Eq)]
pub struct FileItem {
    pub name: String,
    pub path: String,
    pub kind: ItemKind,
    /// Human-readable size; empty for directories and drives.
    pub size: String,
}

impl FileItem {
    /// A copy of the item.
    pub fn duplicate(&self) -> (r: FileItem)
        ensures
            r == *self,
    {
        FileItem {
            name: self.name.clone(),
            path: self.path.clone(),
            kind: self.kind,
            size: self.size.clone(),
        }
    }
}

/// Platforms whose removable drives are looked for.
#[derive(Debug, Clone, Copy, PartialEq, Eq, Structural)]
pub enum Platform {
    Linux,
    FreeBsd,
    Other,
}

/// Whether a directory entry named `name` is shown: hidden names start with `.`.
pub open spec fn is_shown(name: Seq<char>) -> bool {
    name.len() == 0 || name[0] != '.'
}

/// Items before a position `i` of `a` and `b` agree; whether `a` sorts
/// before `b` from there on, by code point, a proper prefix first.
pub open spec fn name_lt_from(a: Seq<char>, b: Seq<char>, i: int) -> bool
    decreases a.len() - i,
{
    if i >= a.len() {
        i < b.len()
    } else if i >= b.len() {
        false
    } else if a[i] != b[i] {
        (a[i] as u32) < (b[i] as u32)
    } else {
        name_lt_from(a, b, i + 1)
    }
}

/// Lexicographic order of names by code point, the order of Rust's `str`.
pub open spec fn name_lt(a: Seq<char>, b: Seq<char>) -> bool {
    name_lt_from(a, b, 0)
}

/// Directories come before everything else.
pub open spec fn rank(k: ItemKind) -> int {
    if k == ItemKind::Dir {
        0
    } else {
        1
    }
}

/// Whether `x` is listed strictly before `y`: directories first, then by name.
pub open spec fn item_lt(x: FileItem, y: FileItem) -> bool {
    rank(x.kind) < rank(y.kind) || (rank(x.kind) == rank(y.kind) && name_lt(x.name@, y.name@))
}

/// No item is listed after one that follows it.
pub open spec fn is_ordered(s: Seq<FileItem>) -> bool {
    forall|i: int, j: int| 0 <= i < j < s.len() ==> !item_lt(#[trigger] s[j], #[trigger] s[i])
}

/// The mount points under which `user`'s removable drives appear.
pub open spec fn mount_points_of(platform: Platform, user: Seq<char>) -> Seq<Seq<char>> {
    match platform {
        Platform::Linux => seq![
            "/media/"@ + user,
            "/run/media/"@ + user,
            "/media"@,
            "/mnt"@,
        ],
        Platform::FreeBsd => seq!["/media"@, "/mnt"@],
        Platform::Other => seq![],
    }
}

proof fn lemma_name_lt_irreflexive(a: Seq<char>, i: int)
    requires
        0 <= i,
    ensures
        !name_lt_from(a, a, i),
    decreases a.len() - i,
{
    if i < a.len() {
        lemma_name_lt_irreflexive(a, i + 1);
    }
}

proof fn lemma_name_lt_transitive(a: Seq<char>, b: Seq<char>, c: Seq<char>, i: int)
    requires
        0 <= i,
        name_lt_from(a, b, i),
        name_lt_from(b, c, i),
    ensures
        name_lt_from(a, c, i),
    decreases a.len() - i,
{
    if i < a.len() && i < b.len() && i < c.len() && a[i] == b[i] && b[i] == c[i] {
        lemma_name_lt_transitive(a, b, c, i + 1);
    }
}

proof fn lemma_item_lt_transitive(x: FileItem, y: FileItem, z: FileItem)
    requires
        item_lt(x, y),
        item_lt(y, z),
    ensures
        item_lt(x, z),
{
    if rank(x.kind) == rank(y.kind) && rank(y.kind) == rank(z.kind) {
        lemma_name_lt_transitive(x.name@, y.name@, z.name@, 0);
    }
}

proof fn lemma_item_lt_irreflexive(x: FileItem)
    ensures
        !item_lt(x, x),
{
    lemma_name_lt_irreflexive(x.name@, 0);
}

proof fn lemma_insert_multiset<A>(s: Seq<A>, p: int, x: A)
    requires
        0 <= p <= s.len(),
    ensures
        s.insert(p, x).to_multiset() =~= s.to_multiset().insert(x),
{
    let t = s.insert(p, x);
    s.insert_ensures(p, x);
    assert(t.remove(p) =~= s);
    t.to_multiset_ensures();
    assert(t[p] == x);
    assert(t.contains(x));
    assert(t.to_multiset().count(x) > 0);
    assert(t.to_multiset() =~= t.to_multiset().remove(x).insert(x));
}

/// Whether an entry named `name` is shown in a listing.
pub fn is_shown_name(name: &str) -> (r: bool)
    ensures
        r == is_shown(name@),
{
    let n = name.unicode_len();
    n == 0 || name.get_char(0) != '.'
}

/// Whether `a` sorts before `b`.
pub fn name_less(a: &str, b: &str) -> (r: bool)
    ensures
        r == name_lt(a@, b@),
{
    let n = a.unicode_len();
    let m = b.unicode_len();
    let mut i: usize = 0;
    while i < n && i < m
        invariant
            n as nat == a@.len(),
            m as nat == b@.len(),
            i <= n,
            i <= m,
            name_lt_from(a@, b@, 0) == name_lt_from(a@, b@, i as int),
        decreases n - i,
    {
        let ca = a.get_char(i);
        let cb = b.get_char(i);
        if ca != cb {
            return (ca as u32) < (cb as u32);
        }
        i = i + 1;
    }
    i == n && i < m
}

/// Whether `x` is listed before `y`.
pub fn item_less(x: &FileItem, y: &FileItem) -> (r: bool)
    ensures
        r == item_lt(*x, *y),
{
    let rx: u8 = if x.kind == ItemKind::Dir { 0 } else { 1 };
    let ry: u8 = if y.kind == ItemKind::Dir { 0 } else { 1 };
    rx < ry || (rx == ry && name_less(x.name.as_str(), y.name.as_str()))
}

/// The shown items of `items`, in their order.
pub fn shown_items(items: &Vec<FileItem>) -> (r: Vec<FileItem>)
    ensures
        r@ == items@.filter(|x: FileItem| is_shown(x.name@)),
{
    let mut r: Vec<FileItem> = Vec::new();
    let mut i: usize = 0;
    while i < items.len()
        invariant
            i <= items.len(),
            r@ == items@.subrange(0, i as int).filter(|x: FileItem| is_shown(x.name@)),
        decreases items.len() - i,
    {
        let x = &items[i];
        let shown = is_shown_name(x.name.as_str());
        proof {
            let prefix = items@.subrange(0, i + 1);
            assert(prefix.drop_last() =~= items@.subrange(0, i as int));
            assert(prefix.last() == items@[i as int]);
            reveal(Seq::filter);
        }
        if shown {
            r.push(x.duplicate());
        }
        i = i + 1;
    }
    assert(items@.subrange(0, items.len() as int) =~= items@);
    r
}

/// `items` in listing order: directories first, then by name; items that
/// compare equal keep their order.
pub fn order_items(items: &Vec<FileItem>) -> (r: Vec<FileItem>)
    ensures
        is_ordered(r@),
        r@.to_multiset() == items@.to_multiset(),
{
    let mut r: Vec<FileItem> = Vec::new();
    let mut i: usize = 0;
    proof {
        items@.subrange(0, 0).to_multiset_ensures();
        assert(items@.subrange(0, 0) =~= Seq::<FileItem>::empty());
        assert(r@ =~= Seq::<FileItem>::empty());
    }
    while i < items.len()
        invariant
            i <= items.len(),
            r.len() == i,
            is_ordered(r@),
            r@.to_multiset() == items@.subrange(0, i as int).to_multiset(),
        decreases items.len() - i,
    {
        let x = items[i].duplicate();
        let mut p: usize = 0;
        while p < r.len() && !item_less(&x, &r[p])
            invariant
                p <= r.len(),
                forall|k: int| 0 <= k < p ==> !item_lt(x, #[trigger] r@[k]),
            decreases r.len() - p,
        {
            p = p + 1;
        }
        let ghost old_r = r@;
        r.insert(p, x);
        proof {
            old_r.insert_ensures(p as int, x);
            assert forall|a: int, b: int| 0 <= a < b < r@.len() implies !item_lt(
                #[trigger] r@[b],
                #[trigger] r@[a],
            ) by {
                if b < p {
                    assert(r@[a] == old_r[a] && r@[b] == old_r[b]);
                } else if b == p {
                    assert(r@[a] == old_r[a]);
                } else if a > p {
                    assert(r@[a] == old_r[a - 1] && r@[b] == old_r[b - 1]);
                } else if a == p {
                    let y = old_r[b - 1];
                    assert(r@[b] == y);
                    if item_lt(y, x) {
                        if b - 1 == p as int {
                            lemma_item_lt_transitive(y, x, y);
                            lemma_item_lt_irreflexive(y);
                        } else {
                            lemma_item_lt_transitive(y, x, old_r[p as int]);
                            assert(!item_lt(old_r[b - 1], old_r[p as int]));
                        }
                    }
                } else {
                    assert(r@[a] == old_r[a] && r@[b] == old_r[b - 1]);
                }
            }
            lemma_insert_multiset(old_r, p as int, x);
            let prefix = items@.subrange(0, i + 1);
            assert(prefix =~= items@.subrange(0, i as int).push(items@[i as int]));
            items@.subrange(0, i as int).to_multiset_ensures();
        }
        i = i + 1;
    }
    assert(items@.subrange(0, items.len() as int) =~= items@);
    r
}

/// The listing of a directory's items: the shown ones, in listing order.
pub fn listing(items: &Vec<FileItem>) -> (r: Vec<FileItem>)
    ensures
        is_ordered(r@),
        r@.to_multiset() == items@.filter(|x: FileItem| is_shown(x.name@)).to_multiset(),
{
    let shown = shown_items(items);
    order_items(&shown)
}

/// The mount points under which `user`'s removable drives appear on `platform`.
pub fn mount_points(platform: Platform, user: &str) -> (r: Vec<String>)
    ensures
        r@.map_values(|s: String| s@) == mount_points_of(platform, user@),
{
    let mut r: Vec<String> = Vec::new();
    match platform {
        Platform::Linux => {
            r.push(String::from_str("/media/").concat(user));
            r.push(String::from_str("/run/media/").concat(user));
            r.push(String::from_str("/media"));
            r.push(String::from_str("/mnt"));
        },
        Platform::FreeBsd => {
            r.push(String::from_str("/media"));
            r.push(String::from_str("/mnt"));
        },
        Platform::Other => {},
    }
    assert(r@.map_values(|s: String| s@) =~= mount_points_of(platform, user@));
    r
}

/// The listing item for a drive mounted at `path` under the name `name`.
pub fn drive_item(name: String, path: String) -> (r: FileItem)
    ensures
        r.name == name,
        r.path == path,
        r.kind == ItemKind::Drive,
        r.size@ == Seq::<char>::empty(),
{
    FileItem { name, path, kind: ItemKind::Drive, size: String::new() }
}

} // verus!
