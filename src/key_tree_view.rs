//! What the key tree panel keeps between renders: the tree version it last
//! showed, the open folders and whether there is nothing to show.
use vstd::prelude::*;
use crate::app_state::QueryMode;
use crate::server::ZedisServerState;
use crate::text::text_eq;
use crate::tree::{has_key, is_expanded, tree_ok, KeyTreeItem};

verus! {

/// The state of the key tree panel.
pub struct ZedisKeyTree {
    /// Nothing was found and no scan is running.
    pub is_empty: bool,
    /// The tree version the panel shows.
    pub key_tree_id: Option<u64>,
    pub query_mode: QueryMode,
    /// The ids of the open folders.
    pub expanded_items: Vec<String>,
    pub error: Option<String>,
}

impl ZedisKeyTree {
    pub fn new(query_mode: QueryMode) -> (r: ZedisKeyTree)
        ensures
            !r.is_empty,
            r.key_tree_id is None,
            r.query_mode == query_mode,
            r.expanded_items@.len() == 0,
            r.error is None,
    {
        ZedisKeyTree {
            is_empty: false,
            key_tree_id: None,
            query_mode,
            expanded_items: Vec::new(),
            error: None,
        }
    }

    /// Takes in a change of `state`: a new tree when its version differs from
    /// the one shown, else `None`. Every folder is open while few keys are
    /// known; an empty tree closes all folders.
    pub fn update_key_tree(
        &mut self,
        state: &ZedisServerState,
        query_mode: QueryMode,
        max_depth: usize,
    ) -> (r: Option<Vec<KeyTreeItem>>)
        requires
            state.wf(),
        ensures
            final(self).query_mode == query_mode,
            final(self).error == old(self).error,
            old(self).key_tree_id == Some(state.tree_version) ==> {
                &&& r is None
                &&& final(self).is_empty == old(self).is_empty
                &&& final(self).key_tree_id == old(self).key_tree_id
                &&& final(self).expanded_items == old(self).expanded_items
            },
            old(self).key_tree_id != Some(state.tree_version) ==> {
                let items = r.unwrap()@;
                &&& r is Some
                &&& final(self).key_tree_id == Some(state.tree_version)
                &&& final(self).is_empty == (items.len() == 0 && !state.scanning)
                &&& items.len() == 0 ==> final(self).expanded_items@.len() == 0
                &&& items.len() > 0 ==> final(self).expanded_items == old(self).expanded_items
                &&& exists|keys: Seq<String>|
                    {
                        &&& keys.len() == state.keys@.len()
                        &&& forall|i: int|
                            0 <= i < keys.len() ==> state.keys@.contains_key(#[trigger] keys[i]@)
                        &&& forall|k: Seq<char>| #[trigger]
                            state.keys@.contains_key(k) ==> has_key(keys, k)
                        &&& tree_ok(
                            items,
                            keys,
                            Seq::empty(),
                            state.separator@,
                            0,
                            max_depth,
                            old(self).expanded_items@,
                            state.keys@.len() < crate::server::AUTO_EXPAND_LIMIT,
                        )
                    }
            },
    {
        self.query_mode = query_mode;
        if let Some(v) = self.key_tree_id {
            if v == state.tree_version {
                return None;
            }
        }
        let expand_all = state.auto_expand();
        let items = state.key_tree(&self.expanded_items, expand_all, max_depth);
        if items.len() == 0 {
            self.expanded_items = Vec::new();
        }
        self.is_empty = items.len() == 0 && !state.scanning;
        self.key_tree_id = Some(state.tree_version);
        Some(items)
    }

    /// Opens or closes the folder `id`. Opening returns the prefix whose keys
    /// are to be loaded.
    pub fn click_folder(&mut self, id: String, expand: bool) -> (r: Option<String>)
        ensures
            is_expanded(final(self).expanded_items@, id@) == expand,
            forall|k: Seq<char>|
                k != id@ ==> #[trigger] is_expanded(final(self).expanded_items@, k) == is_expanded(
                    old(self).expanded_items@,
                    k,
                ),
            expand ==> r is Some && r.unwrap()@ == id@,
            !expand ==> r is None,
            final(self).is_empty == old(self).is_empty,
            final(self).key_tree_id == old(self).key_tree_id,
            final(self).query_mode == old(self).query_mode,
    {
        let mut kept: Vec<String> = Vec::new();
        let mut i: usize = 0;
        while i < self.expanded_items.len()
            invariant
                i <= self.expanded_items@.len(),
                forall|j: int| 0 <= j < kept@.len() ==> (#[trigger] kept@[j])@ != id@,
                forall|k: Seq<char>|
                    k != id@ ==> (#[trigger] is_expanded(kept@, k) <==> exists|j: int|
                        0 <= j < i && self.expanded_items@[j]@ == k),
            decreases self.expanded_items@.len() - i,
        {
            let ghost kept0 = kept@;
            if !text_eq(self.expanded_items[i].as_str(), id.as_str()) {
                kept.push(self.expanded_items[i].clone());
            }
            proof {
                assert forall|k: Seq<char>|
                    k != id@ implies (#[trigger] is_expanded(kept@, k) <==> exists|j: int|
                    0 <= j < i + 1 && self.expanded_items@[j]@ == k) by {
                    if is_expanded(kept@, k) {
                        let j = choose|j: int| 0 <= j < kept@.len() && #[trigger] kept@[j]@ == k;
                        if j < kept0.len() {
                            assert(kept0[j] == kept@[j]);
                            assert(is_expanded(kept0, k));
                        }
                    }
                    if exists|j: int| 0 <= j < i + 1 && self.expanded_items@[j]@ == k {
                        let j = choose|j: int| 0 <= j < i + 1 && self.expanded_items@[j]@ == k;
                        if j < i {
                            assert(exists|j2: int| 0 <= j2 < i && self.expanded_items@[j2]@ == k);
                            assert(is_expanded(kept0, k));
                            let w = choose|w: int| 0 <= w < kept0.len() && #[trigger] kept0[w]@ == k;
                            assert(kept@[w] == kept0[w]);
                        } else {
                            assert(kept@[kept@.len() - 1]@ == k);
                        }
                    }
                }
            }
            i = i + 1;
        }
        let r = if expand {
            let opened = id.clone();
            let ghost kept0 = kept@;
            kept.push(id);
            proof {
                assert(kept@[kept@.len() - 1]@ == opened@);
                assert forall|k: Seq<char>| k != opened@ implies #[trigger] is_expanded(kept@, k)
                    == is_expanded(kept0, k) by {
                    if is_expanded(kept@, k) {
                        let j = choose|j: int| 0 <= j < kept@.len() && #[trigger] kept@[j]@ == k;
                        assert(j < kept0.len());
                        assert(kept0[j] == kept@[j]);
                    }
                    if is_expanded(kept0, k) {
                        let j = choose|j: int| 0 <= j < kept0.len() && #[trigger] kept0[j]@ == k;
                        assert(kept@[j] == kept0[j]);
                    }
                }
            }
            Some(opened)
        } else {
            None
        };
        self.expanded_items = kept;
        r
    }

    /// A new filter is taken only while no scan runs.
    pub fn can_filter(&self, state: &ZedisServerState) -> (r: bool)
        ensures
            r == !state.scanning,
    {
        !state.scanning
    }
}

} // verus!
