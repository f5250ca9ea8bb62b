//! Folding flat keys into a tree of folders and leaves by a separator token.
use vstd::prelude::*;
use vstd::string::*;
use crate::keys::is_direct_child;
use crate::text::{contains_text, find_text, has_prefix, is_prefix_of, occurs_at, suffix_from, text_eq};

verus! {

/// A node of the key tree.
pub struct KeyTreeItem {
    /// A key for a leaf; for a folder, the path to it ending in the separator.
    pub id: String,
    /// The part of the path that the node adds.
    pub label: String,
    pub is_folder: bool,
    pub depth: usize,
    /// The folder's nodes, when it is expanded.
    pub children: Vec<KeyTreeItem>,
}

/// `k` is one of `keys`.
pub open spec fn has_key(keys: Seq<String>, k: Seq<char>) -> bool {
    exists|j: int| 0 <= j < keys.len() && #[trigger] keys[j]@ == k
}

/// No key occurs twice.
pub open spec fn distinct_keys(keys: Seq<String>) -> bool {
    forall|a: int, b: int| 0 <= a < b < keys.len() ==> #[trigger] keys[a]@ != #[trigger] keys[b]@
}

/// `it` is a node directly under `prefix` at `depth`: a leaf is a key with no
/// separator after the prefix and is labelled with the rest; a folder is the
/// prefix, a label free of separators and the separator, and lies above a key.
pub open spec fn item_ok(
    it: KeyTreeItem,
    keys: Seq<String>,
    prefix: Seq<char>,
    sep: Seq<char>,
    depth: usize,
) -> bool {
    &&& it.depth == depth
    &&& is_prefix_of(prefix, it.id@)
    &&& if it.is_folder {
        &&& it.id@ == prefix + it.label@ + sep
        &&& !contains_text(it.label@, sep)
        &&& exists|j: int| 0 <= j < keys.len() && is_prefix_of(it.id@, #[trigger] keys[j]@)
    } else {
        &&& has_key(keys, it.id@)
        &&& is_direct_child(it.id@, prefix, sep)
        &&& it.label@ == it.id@.subrange(prefix.len() as int, it.id@.len() as int)
    }
}

/// Some node of `items` stands for the key `k`: it is `k`'s leaf or a folder above it.
pub open spec fn covers(items: Seq<KeyTreeItem>, k: Seq<char>) -> bool {
    exists|j: int|
        0 <= j < items.len() && ((!(#[trigger] items[j]).is_folder && items[j].id@ == k) || (
        items[j].is_folder && is_prefix_of(items[j].id@, k)))
}

/// `items` is the level of the tree under `prefix`: valid nodes with distinct
/// ids that stand for every key under the prefix.
pub open spec fn level_ok(
    items: Seq<KeyTreeItem>,
    keys: Seq<String>,
    prefix: Seq<char>,
    sep: Seq<char>,
    depth: usize,
) -> bool {
    &&& forall|i: int| 0 <= i < items.len() ==> item_ok(#[trigger] items[i], keys, prefix, sep, depth)
    &&& forall|a: int, b: int|
        0 <= a < b < items.len() ==> (#[trigger] items[a]).id@ != (#[trigger] items[b]).id@
    &&& forall|j: int|
        0 <= j < keys.len() && is_prefix_of(prefix, #[trigger] keys[j]@) ==> covers(items, keys[j]@)
}

/// `id` is one of the expanded folders.
pub open spec fn is_expanded(expanded: Seq<String>, id: Seq<char>) -> bool {
    exists|j: int| 0 <= j < expanded.len() && #[trigger] expanded[j]@ == id
}

/// `items` is the tree under `prefix` at `depth`: the level is valid, leaves
/// have no children, and a folder has the tree under it as children when it is
/// open (all are open with `expand_all`) and its children stay within
/// `max_depth`, and none otherwise.
pub open spec fn tree_ok(
    items: Seq<KeyTreeItem>,
    keys: Seq<String>,
    prefix: Seq<char>,
    sep: Seq<char>,
    depth: usize,
    max_depth: usize,
    expanded: Seq<String>,
    expand_all: bool,
) -> bool
    decreases max_depth - depth,
{
    &&& level_ok(items, keys, prefix, sep, depth)
    &&& forall|i: int|
        0 <= i < items.len() ==> {
            let it = #[trigger] items[i];
            if it.is_folder && (expand_all || is_expanded(expanded, it.id@)) && depth + 1
                < max_depth {
                tree_ok(
                    it.children@,
                    keys,
                    it.id@,
                    sep,
                    (depth + 1) as usize,
                    max_depth,
                    expanded,
                    expand_all,
                )
            } else {
                it.children@.len() == 0
            }
        }
}

fn position_of_id(items: &Vec<KeyTreeItem>, id: &str) -> (r: Option<usize>)
    ensures
        r is None ==> forall|j: int| 0 <= j < items@.len() ==> (#[trigger] items@[j]).id@ != id@,
        r is Some ==> r.unwrap() < items@.len() && items@[r.unwrap() as int].id@ == id@,
{
    let mut i: usize = 0;
    while i < items.len()
        invariant
            i <= items@.len(),
            forall|j: int| 0 <= j < i ==> (#[trigger] items@[j]).id@ != id@,
        decreases items@.len() - i,
    {
        if text_eq(items[i].id.as_str(), id) {
            return Some(i);
        }
        i = i + 1;
    }
    None
}

fn holds_str(v: &Vec<String>, p: &str) -> (r: bool)
    ensures
        r == is_expanded(v@, p@),
{
    let mut i: usize = 0;
    while i < v.len()
        invariant
            i <= v@.len(),
            forall|k: int| 0 <= k < i ==> #[trigger] v@[k]@ != p@,
        decreases v@.len() - i,
    {
        if text_eq(v[i].as_str(), p) {
            return true;
        }
        i = i + 1;
    }
    false
}

proof fn lemma_no_earlier(rest: Seq<char>, sep: Seq<char>, p: int)
    requires
        sep.len() > 0,
        occurs_at(rest, sep, p),
        forall|q: int| 0 <= q < p ==> !occurs_at(rest, sep, q),
    ensures
        !contains_text(rest.subrange(0, p), sep),
{
    let label = rest.subrange(0, p);
    assert forall|q: int| !occurs_at(label, sep, q) by {
        if occurs_at(label, sep, q) {
            assert(label.subrange(q, q + sep.len()) =~= rest.subrange(q, q + sep.len()));
            assert(occurs_at(rest, sep, q));
        }
    }
}

/// The nodes directly under `prefix`, at `depth`, without children.
pub fn tree_level(keys: &Vec<String>, prefix: &str, sep: &str, depth: usize) -> (r: Vec<
    KeyTreeItem,
>)
    requires
        sep@.len() > 0,
        distinct_keys(keys@),
    ensures
        level_ok(r@, keys@, prefix@, sep@, depth),
        forall|i: int| 0 <= i < r@.len() ==> (#[trigger] r@[i]).children@.len() == 0,
{
    let mut items: Vec<KeyTreeItem> = Vec::new();
    let plen = prefix.unicode_len();
    let mut i: usize = 0;
    while i < keys.len()
        invariant
            sep@.len() > 0,
            distinct_keys(keys@),
            plen == prefix@.len(),
            i <= keys@.len(),
            forall|a: int|
                0 <= a < items@.len() ==> item_ok(#[trigger] items@[a], keys@, prefix@, sep@, depth),
            forall|a: int| 0 <= a < items@.len() ==> (#[trigger] items@[a]).children@.len() == 0,
            forall|a: int, b: int|
                0 <= a < b < items@.len() ==> (#[trigger] items@[a]).id@ != (#[trigger] items@[b]).id@,
            forall|a: int|
                0 <= a < items@.len() && !(#[trigger] items@[a]).is_folder ==> exists|j: int|
                    0 <= j < i && keys@[j]@ == items@[a].id@,
            forall|j: int|
                0 <= j < i && is_prefix_of(prefix@, #[trigger] keys@[j]@) ==> covers(
                    items@,
                    keys@[j]@,
                ),
        decreases keys@.len() - i,
    {
        let key = &keys[i];
        let ghost items0 = items@;
        if has_prefix(key.as_str(), prefix) {
            let rest = suffix_from(key.as_str(), plen);
            match find_text(rest.as_str(), sep) {
                None => {
                    let it = KeyTreeItem {
                        id: key.clone(),
                        label: rest,
                        is_folder: false,
                        depth,
                        children: Vec::new(),
                    };
                    proof {
                        assert forall|a: int| 0 <= a < items0.len() implies (#[trigger] items0[a]).id@
                            != key@ by {
                            if items0[a].is_folder {
                                let lab = items0[a].label@;
                                if items0[a].id@ == key@ {
                                    assert(key@.subrange(plen as int, key@.len() as int) =~= lab
                                        + sep@);
                                    assert((lab + sep@).subrange(
                                        lab.len() as int,
                                        (lab.len() + sep@.len()) as int,
                                    ) =~= sep@);
                                    assert(occurs_at(rest@, sep@, lab.len() as int));
                                }
                            } else {
                                let j = choose|j: int| 0 <= j < i && keys@[j]@ == items0[a].id@;
                                assert(keys@[j]@ != keys@[i as int]@);
                            }
                        }
                    }
                    items.push(it);
                    proof {
                        let n = items@.len() - 1;
                        assert(items@[n].id@ == key@);
                        assert(has_key(keys@, key@));
                        assert forall|a: int|
                            0 <= a < items@.len() && !(#[trigger] items@[a]).is_folder implies exists|
                                j: int,
                            | 0 <= j < i + 1 && keys@[j]@ == items@[a].id@ by {
                            if a < n {
                                assert(items@[a] == items0[a]);
                            } else {
                                assert(keys@[i as int]@ == items@[a].id@);
                            }
                        }
                        assert forall|j: int|
                            0 <= j < i + 1 && is_prefix_of(prefix@, #[trigger] keys@[j]@) implies covers(
                            items@,
                            keys@[j]@,
                        ) by {
                            if j < i {
                                let w = choose|w: int|
                                    0 <= w < items0.len() && ((!(#[trigger] items0[w]).is_folder
                                        && items0[w].id@ == keys@[j]@) || (items0[w].is_folder
                                        && is_prefix_of(items0[w].id@, keys@[j]@)));
                                assert(items@[w] == items0[w]);
                            } else {
                                assert(!items@[n].is_folder && items@[n].id@ == keys@[j]@);
                            }
                        }
                    }
                },
                Some(p) => {
                    let label = String::from_str(rest.as_str().substring_char(0, p));
                    let mut id = String::from_str(prefix);
                    id.append(label.as_str());
                    id.append(sep);
                    proof {
                        lemma_no_earlier(rest@, sep@, p as int);
                        assert(key@ =~= prefix@ + rest@);
                        assert(id@ =~= prefix@ + label@ + sep@);
                        assert(key@.subrange(0, id@.len() as int) =~= id@);
                        assert(id@.subrange(0, prefix@.len() as int) =~= prefix@);
                    }
                    match position_of_id(&items, id.as_str()) {
                        Some(w) => {
                            proof {
                                assert forall|j: int|
                                    0 <= j < i + 1 && is_prefix_of(prefix@, #[trigger] keys@[j]@) implies covers(
                                    items@,
                                    keys@[j]@,
                                ) by {
                                    if j == i {
                                        assert(items@[w as int].is_folder || !items@[w as int].is_folder);
                                        if !items@[w as int].is_folder {
                                            // a leaf with this id would be a key with no separator after the prefix
                                            let lid = items@[w as int].id@;
                                            assert(lid.subrange(plen as int, lid.len() as int) =~= label@ + sep@);
                                            assert((label@ + sep@).subrange(
                                                label@.len() as int,
                                                (label@.len() + sep@.len()) as int,
                                            ) =~= sep@);
                                            assert(occurs_at(
                                                lid.subrange(plen as int, lid.len() as int),
                                                sep@,
                                                label@.len() as int,
                                            ));
                                        }
                                    }
                                }
                            }
                        },
                        None => {
                            let it = KeyTreeItem {
                                id,
                                label,
                                is_folder: true,
                                depth,
                                children: Vec::new(),
                            };
                            items.push(it);
                            proof {
                                let n = items@.len() - 1;
                                assert(is_prefix_of(items@[n].id@, keys@[i as int]@));
                                assert forall|a: int|
                                    0 <= a < items@.len() && !(#[trigger] items@[a]).is_folder implies exists|
                                        j: int,
                                    | 0 <= j < i + 1 && keys@[j]@ == items@[a].id@ by {
                                    assert(a < n);
                                    assert(items@[a] == items0[a]);
                                    let j = choose|j: int| 0 <= j < i && keys@[j]@ == items0[a].id@;
                                }
                                assert forall|j: int|
                                    0 <= j < i + 1 && is_prefix_of(prefix@, #[trigger] keys@[j]@) implies covers(
                                    items@,
                                    keys@[j]@,
                                ) by {
                                    if j < i {
                                        let w = choose|w: int|
                                            0 <= w < items0.len() && ((!(#[trigger] items0[w]).is_folder
                                                && items0[w].id@ == keys@[j]@) || (items0[w].is_folder
                                                && is_prefix_of(items0[w].id@, keys@[j]@)));
                                        assert(items@[w] == items0[w]);
                                    } else {
                                        assert(items@[n].is_folder);
                                    }
                                }
                            }
                        },
                    }
                },
            }
        }
        i = i + 1;
    }
    items
}

/// Whether a folder's children are shown: it is open and they stay within the depth limit.
pub open spec fn opens(
    it: KeyTreeItem,
    depth: usize,
    max_depth: usize,
    expanded: Seq<String>,
    expand_all: bool,
) -> bool {
    it.is_folder && (expand_all || is_expanded(expanded, it.id@)) && depth + 1 < max_depth
}

/// The tree under `prefix` at `depth`.
pub fn build_tree(
    keys: &Vec<String>,
    prefix: &str,
    sep: &str,
    depth: usize,
    max_depth: usize,
    expanded: &Vec<String>,
    expand_all: bool,
) -> (r: Vec<KeyTreeItem>)
    requires
        sep@.len() > 0,
        distinct_keys(keys@),
    ensures
        tree_ok(r@, keys@, prefix@, sep@, depth, max_depth, expanded@, expand_all),
    decreases max_depth - depth,
{
    let level = tree_level(keys, prefix, sep, depth);
    let mut out: Vec<KeyTreeItem> = Vec::new();
    let mut i: usize = 0;
    while i < level.len()
        invariant
            sep@.len() > 0,
            distinct_keys(keys@),
            level_ok(level@, keys@, prefix@, sep@, depth),
            i <= level@.len(),
            out@.len() == i,
            forall|a: int|
                0 <= a < i ==> {
                    &&& (#[trigger] out@[a]).id@ == level@[a].id@
                    &&& out@[a].label@ == level@[a].label@
                    &&& out@[a].is_folder == level@[a].is_folder
                    &&& out@[a].depth == level@[a].depth
                },
            forall|a: int|
                0 <= a < i ==> if opens(#[trigger] out@[a], depth, max_depth, expanded@, expand_all) {
                    tree_ok(
                        out@[a].children@,
                        keys@,
                        out@[a].id@,
                        sep@,
                        (depth + 1) as usize,
                        max_depth,
                        expanded@,
                        expand_all,
                    )
                } else {
                    out@[a].children@.len() == 0
                },
        decreases level@.len() - i,
    {
        let lv = &level[i];
        let open = lv.is_folder && (expand_all || holds_str(expanded, lv.id.as_str())) && depth
            < max_depth && depth + 1 < max_depth;
        let children = if open {
            build_tree(keys, lv.id.as_str(), sep, depth + 1, max_depth, expanded, expand_all)
        } else {
            Vec::new()
        };
        let it = KeyTreeItem {
            id: lv.id.clone(),
            label: lv.label.clone(),
            is_folder: lv.is_folder,
            depth: lv.depth,
            children,
        };
        out.push(it);
        i = i + 1;
    }
    proof {
        assert forall|a: int| 0 <= a < out@.len() implies item_ok(
            #[trigger] out@[a],
            keys@,
            prefix@,
            sep@,
            depth,
        ) by {
            assert(item_ok(level@[a], keys@, prefix@, sep@, depth));
        }
        assert forall|j: int|
            0 <= j < keys@.len() && is_prefix_of(prefix@, #[trigger] keys@[j]@) implies covers(
            out@,
            keys@[j]@,
        ) by {
            assert(covers(level@, keys@[j]@));
            let w = choose|w: int|
                0 <= w < level@.len() && ((!(#[trigger] level@[w]).is_folder && level@[w].id@
                    == keys@[j]@) || (level@[w].is_folder && is_prefix_of(level@[w].id@, keys@[j]@)));
            assert(out@[w].id@ == level@[w].id@);
        }
        assert forall|a: int, b: int|
            0 <= a < b < out@.len() implies (#[trigger] out@[a]).id@ != (#[trigger] out@[b]).id@ by {
            assert(level@[a].id@ != level@[b].id@);
        }
    }
    out
}

/// The key tree of `keys` split on `sep`, at most `max_depth` levels deep,
/// with the folders in `expanded` open (all of them with `expand_all`).
pub fn key_tree(
    keys: &Vec<String>,
    sep: &str,
    max_depth: usize,
    expanded: &Vec<String>,
    expand_all: bool,
) -> (r: Vec<KeyTreeItem>)
    requires
        sep@.len() > 0,
        distinct_keys(keys@),
    ensures
        tree_ok(r@, keys@, Seq::empty(), sep@, 0, max_depth, expanded@, expand_all),
{
    let root = "";
    proof {
        reveal_strlit("");
        assert(root@ =~= Seq::<char>::empty());
    }
    build_tree(keys, root, sep, 0, max_depth, expanded, expand_all)
}

} // verus!
