//! The per-connection state: key discovery, type resolution, the selected
//! value and mutations.
//!
//! Every operation that needs the store is split in two: a method that
//! updates the state and returns the request to perform, and a method that
//! takes the reply and applies it.
use vstd::prelude::*;
use vstd::string::*;
use crate::keys::{KeyStore, views, with_discovered, with_types, pair_views};
use crate::text::text_eq;
use crate::tree::{has_key, key_tree, tree_ok, KeyTreeItem};
use crate::keys::is_direct_child;
use crate::value::{
    key_type_of_name, KeyType, RedisListValue, RedisValue, RedisValueData, MISSING, PERSISTENT, unix_ts,
};
use vstd::utf8::encode_utf8;

verus! {

/// Keys that a scan accepts per round before it stops continuing by itself.
pub const SCAN_RESULT_STEP: usize = 1000;

/// Keys asked for per page when no filter is given.
pub const SCAN_PAGE_ALL: u64 = 2000;

/// Keys asked for per page under a filter.
pub const SCAN_PAGE_FILTERED: u64 = 10000;

/// Pages a prefix expansion reads at most.
pub const PREFIX_SCAN_ROUNDS: usize = 20;

/// Every shard cursor is zero: the iteration is over.
pub open spec fn all_zero(c: Seq<u64>) -> bool {
    forall|i: int| 0 <= i < c.len() ==> c[i] == 0
}

/// Whether the scan is complete, and where it goes on, after a page with
/// cursors `c`: all zero completes it, and a complete scan stays complete.
pub open spec fn cursor_step(completed: bool, c: Seq<u64>) -> (bool, Option<Seq<u64>>) {
    if completed || all_zero(c) {
        (true, None)
    } else {
        (false, Some(c))
    }
}

/// How many keys a scan in round `round` accepts before it stops by itself.
pub open spec fn scan_cap(round: usize) -> int {
    SCAN_RESULT_STEP * (round + 1)
}

/// Whether a scan chain goes on by itself after a page.
pub open spec fn continues(has_cursor: bool, key_count: int, round: usize) -> bool {
    has_cursor && key_count < scan_cap(round)
}

/// Page size asked for under the filter `keyword`.
pub open spec fn page_size(keyword: Seq<char>) -> u64 {
    if keyword.len() == 0 {
        SCAN_PAGE_ALL
    } else {
        SCAN_PAGE_FILTERED
    }
}

/// The match pattern of a scan under the filter `keyword`.
pub open spec fn scan_pattern(keyword: Seq<char>) -> Seq<char> {
    seq!['*'] + keyword + seq!['*']
}

/// The tree version that follows `v`.
pub open spec fn next_version(v: u64) -> u64 {
    if v == u64::MAX {
        0
    } else {
        (v + 1) as u64
    }
}

/// Whether all cursors are zero.
pub fn cursors_done(c: &Vec<u64>) -> (r: bool)
    ensures
        r == all_zero(c@),
{
    let mut i: usize = 0;
    while i < c.len()
        invariant
            i <= c@.len(),
            forall|k: int| 0 <= k < i ==> c@[k] == 0,
        decreases c@.len() - i,
    {
        if c[i] != 0 {
            return false;
        }
        i = i + 1;
    }
    true
}

fn bump(v: u64) -> (r: u64)
    ensures
        r == next_version(v),
{
    if v == u64::MAX {
        0
    } else {
        v + 1
    }
}

/// The cursors as a sequence, if any.
pub open spec fn cursor_view(c: Option<Vec<u64>>) -> Option<Seq<u64>> {
    match c {
        Some(v) => Some(v@),
        None => None,
    }
}

fn copy_cursors(c: &Option<Vec<u64>>) -> (r: Option<Vec<u64>>)
    ensures
        cursor_view(r) == cursor_view(*c),
{
    match c {
        Some(v) => {
            let w = v.clone();
            assert(w@ =~= v@);
            Some(w)
        },
        None => None,
    }
}

/// The effect of a scan page of the chain `(server, keyword)` on a state
/// `old`, giving `new` and the step `r`: a page of a chain that is no longer
/// live changes nothing; otherwise the keys are merged, the cursors follow
/// `cursor_step` (a failure forgets them), and the chain goes on exactly while
/// it holds a cursor and fewer keys than the round's cap.
pub open spec fn scan_page_applied(
    old: ZedisServerState,
    new: ZedisServerState,
    server: Seq<char>,
    keyword: Seq<char>,
    page: Option<(Vec<u64>, Vec<String>)>,
    r: ScanStep,
) -> bool {
    &&& !old.is_live(server, keyword) ==> r is Dropped && new == old
    &&& old.is_live(server, keyword) ==> {
        &&& new.same_selection(&old)
        &&& new.keyword == old.keyword
        &&& new.scan_times == old.scan_times
        &&& new.loaded_prefixes == old.loaded_prefixes
        &&& match page {
            Some((c, ks)) => {
                &&& new.keys@ == with_discovered(old.keys@, views(ks@))
                &&& (new.scan_completed, cursor_view(new.cursors))
                    == cursor_step(old.scan_completed, c@)
                &&& all_zero(c@) || old.scan_completed ==> new.scan_completed
                    && new.cursors is None
                &&& !all_zero(c@) && !old.scan_completed ==> !new.scan_completed
                    && cursor_view(new.cursors) == Some(c@)
            },
            None => {
                &&& new.keys@ == old.keys@
                &&& new.cursors is None
                &&& new.scan_completed == old.scan_completed
            },
        }
        &&& new.tree_version == if new.keys@ == old.keys@ {
            old.tree_version
        } else {
            next_version(old.tree_version)
        }
        &&& if continues(
            new.cursors is Some,
            new.keys@.len() as int,
            old.scan_times,
        ) {
            &&& r is Continue
            &&& new.scanning == old.scanning
            &&& r->Continue_0.keyword@ == keyword
            &&& r->Continue_0.pattern@ == scan_pattern(keyword)
            &&& r->Continue_0.count == page_size(keyword)
            &&& cursor_view(r->Continue_0.cursors) == cursor_view(new.cursors)
        } else {
            &&& r is Finished
            &&& !new.scanning
            &&& forall|k: Seq<char>|
                #[trigger] new.keys@.contains_key(k) && new.keys@[k]
                    == KeyType::Unknown && is_direct_child(k, Seq::empty(), new.separator@)
                    ==> r->Finished_0 is Some
        }
    }
}

/// The effect of the outcome `ok` of deleting `key` on a state `old`, giving
/// `new`: the busy flag is cleared; on success the key leaves the map, the
/// tree version moves if it was there, and a selection of it is cleared; on
/// failure nothing else changes.
pub open spec fn delete_applied(old: ZedisServerState, new: ZedisServerState, key: Seq<char>, ok: bool) -> bool {
    &&& !new.deleting
    &&& new.server == old.server
    &&& new.cursors == old.cursors
    &&& new.scanning == old.scanning
    &&& new.scan_completed == old.scan_completed
    &&& new.scan_times == old.scan_times
    &&& new.keyword == old.keyword
    &&& new.loaded_prefixes == old.loaded_prefixes
    &&& new.separator == old.separator
    &&& new.updating == old.updating
    &&& new.last_operated_at == old.last_operated_at
    &&& !ok ==> {
        &&& new.keys@ == old.keys@
        &&& new.tree_version == old.tree_version
        &&& new.key == old.key
        &&& new.value == old.value
    }
    &&& ok ==> {
        &&& new.keys@ == old.keys@.remove(key)
        &&& new.tree_version == if old.keys@.contains_key(key) {
            next_version(old.tree_version)
        } else {
            old.tree_version
        }
        &&& old.is_selected(key) ==> new.key is None && new.value is None
        &&& !old.is_selected(key) ==> new.key == old.key && new.value == old.value
    }
}

/// A page request of a scan chain.
#[derive(Debug, Clone)]
pub struct ScanRequest {
    /// The connection the chain was started on.
    pub server: String,
    /// The filter the chain was started with.
    pub keyword: String,
    /// The match pattern to send.
    pub pattern: String,
    /// How many keys to ask for.
    pub count: u64,
    /// Where to continue; `None` asks for the first page.
    pub cursors: Option<Vec<u64>>,
}

/// Classification requests: the type of each key is to be looked up.
#[derive(Debug, Clone)]
pub struct TypeRequest {
    pub server: String,
    pub keys: Vec<String>,
}

/// What follows a scan page.
#[derive(Debug, Clone)]
pub enum ScanStep {
    /// The page belonged to a superseded chain and was ignored.
    Dropped,
    /// The chain goes on with this request.
    Continue(ScanRequest),
    /// The chain ended; these keys are to be classified, if any.
    Finished(Option<TypeRequest>),
}

/// The state of one connection.
pub struct ZedisServerState {
    /// The connection's name.
    pub server: String,
    /// The discovered keys and their types.
    pub keys: KeyStore,
    /// Where the live scan chain goes on; `None` before the first page and
    /// after the last.
    pub cursors: Option<Vec<u64>>,
    pub scanning: bool,
    pub scan_completed: bool,
    /// How many times the scan was asked to go on past its cap.
    pub scan_times: usize,
    /// The filter of the live scan chain.
    pub keyword: String,
    /// Prefixes whose keys were all loaded.
    pub loaded_prefixes: Vec<String>,
    /// The selected key.
    pub key: Option<String>,
    /// The value of the selected key.
    pub value: Option<RedisValue>,
    /// Changes whenever the set of keys or a key's type changes.
    pub tree_version: u64,
    pub deleting: bool,
    pub updating: bool,
    /// When the user last acted, in seconds since the Unix epoch.
    pub last_operated_at: i64,
    /// The token that separates the levels of a key.
    pub separator: String,
}

impl ZedisServerState {
    pub open spec fn wf(&self) -> bool {
        &&& self.keys.wf()
        &&& self.scan_completed ==> self.cursors is None
        &&& self.separator@.len() > 0
    }

    /// Everything but the scan and the key map is as in `other`.
    pub open spec fn same_selection(&self, other: &ZedisServerState) -> bool {
        &&& self.server == other.server
        &&& self.key == other.key
        &&& self.value == other.value
        &&& self.deleting == other.deleting
        &&& self.updating == other.updating
        &&& self.last_operated_at == other.last_operated_at
        &&& self.separator == other.separator
    }

    /// The scan and the key map are as in `other`.
    pub open spec fn same_scan(&self, other: &ZedisServerState) -> bool {
        &&& self.server == other.server
        &&& self.keys@ == other.keys@
        &&& self.cursors == other.cursors
        &&& self.scanning == other.scanning
        &&& self.scan_completed == other.scan_completed
        &&& self.scan_times == other.scan_times
        &&& self.keyword == other.keyword
        &&& self.loaded_prefixes == other.loaded_prefixes
        &&& self.tree_version == other.tree_version
        &&& self.separator == other.separator
    }

    /// `(server, keyword)` is the generation of the live scan chain.
    pub open spec fn is_live(&self, server: Seq<char>, keyword: Seq<char>) -> bool {
        self.server@ == server && self.keyword@ == keyword
    }

    /// A fresh state for the connection `server`, with `:` as separator.
    pub fn new(server: String) -> (r: ZedisServerState)
        ensures
            r.wf(),
            r.server == server,
            r.keys@ == Map::<Seq<char>, crate::value::KeyType>::empty(),
            r.cursors is None,
            !r.scanning,
            !r.scan_completed,
            r.scan_times == 0,
            r.keyword@.len() == 0,
            r.loaded_prefixes@.len() == 0,
            r.key is None,
            r.value is None,
            r.tree_version == 0,
            !r.deleting,
            !r.updating,
            r.separator@ == seq![':'],
    {
        let r = ZedisServerState {
            server,
            keys: KeyStore::new(),
            cursors: None,
            scanning: false,
            scan_completed: false,
            scan_times: 0,
            keyword: String::new(),
            loaded_prefixes: Vec::new(),
            key: None,
            value: None,
            tree_version: 0,
            deleting: false,
            updating: false,
            last_operated_at: 0,
            separator: String::from_str(":"),
        };
        proof {
            reveal_strlit(":");
        }
        assert(r.separator@.len() == 1);
        r
    }

    /// The page request of the chain `(server, keyword)`, or `None` when that
    /// chain is no longer live.
    pub fn scan_keys(&self, server: &str, keyword: &str) -> (r: Option<ScanRequest>)
        ensures
            r is Some <==> self.is_live(server@, keyword@),
            r is Some ==> ({
                let q = r.unwrap();
                &&& q.server@ == self.server@
                &&& q.keyword@ == self.keyword@
                &&& q.pattern@ == scan_pattern(keyword@)
                &&& q.count == page_size(keyword@)
                &&& cursor_view(q.cursors) == cursor_view(self.cursors)
            }),
    {
        if !text_eq(self.server.as_str(), server) || !text_eq(self.keyword.as_str(), keyword) {
            return None;
        }
        let mut pattern = String::from_str("*");
        pattern.append(keyword);
        pattern.append("*");
        proof {
            reveal_strlit("*");
            assert(pattern@ =~= scan_pattern(keyword@));
        }
        let count = if keyword.unicode_len() == 0 {
            SCAN_PAGE_ALL
        } else {
            SCAN_PAGE_FILTERED
        };
        Some(
            ScanRequest {
                server: self.server.clone(),
                keyword: self.keyword.clone(),
                pattern,
                count,
                cursors: copy_cursors(&self.cursors),
            },
        )
    }
}

impl ZedisServerState {
    /// The classification requests for the `Unknown` keys directly under `prefix`.
    pub fn fill_key_types(&self, prefix: &str) -> (r: Option<TypeRequest>)
        requires
            self.wf(),
        ensures
            r is Some ==> r.unwrap().server == self.server && r.unwrap().keys@.len() > 0,
            r is Some ==> forall|a: int, b: int|
                0 <= a < b < r.unwrap().keys@.len() ==> #[trigger] r.unwrap().keys@[a]@
                    != #[trigger] r.unwrap().keys@[b]@,
            r is Some ==> forall|i: int| 0 <= i < r.unwrap().keys@.len() ==> {
                let k = #[trigger] r.unwrap().keys@[i]@;
                &&& self.keys@.contains_key(k)
                &&& self.keys@[k] == KeyType::Unknown
                &&& is_direct_child(k, prefix@, self.separator@)
            },
            forall|k: Seq<char>|
                #[trigger] self.keys@.contains_key(k) && self.keys@[k] == KeyType::Unknown
                    && is_direct_child(k, prefix@, self.separator@) ==> r is Some && exists|i: int|
                    0 <= i < r.unwrap().keys@.len() && r.unwrap().keys@[i]@ == k,
    {
        let keys = self.keys.unknown_children(prefix, self.separator.as_str());
        if keys.len() == 0 {
            return None;
        }
        Some(TypeRequest { server: self.server.clone(), keys })
    }

    /// Clears everything a scan found.
    fn reset_scan(&mut self)
        requires
            old(self).wf(),
        ensures
            final(self).wf(),
            final(self).same_selection(&*old(self)),
            final(self).keys@ == Map::<Seq<char>, KeyType>::empty(),
            final(self).cursors is None,
            !final(self).scan_completed,
            final(self).scan_times == 0,
            final(self).loaded_prefixes@.len() == 0,
            final(self).scanning == old(self).scanning,
            final(self).keyword == old(self).keyword,
            final(self).tree_version == if old(self).keys@.len() == 0 {
                old(self).tree_version
            } else {
                next_version(old(self).tree_version)
            },
    {
        if self.keys.len() != 0 {
            self.tree_version = bump(self.tree_version);
        }
        self.keys = KeyStore::new();
        self.cursors = None;
        self.scan_completed = false;
        self.scan_times = 0;
        self.loaded_prefixes = Vec::new();
    }

    /// Starts a new scan chain under `keyword`: what an earlier chain found is
    /// cleared and its later pages will be dropped. Returns the first page request.
    pub fn scan(&mut self, keyword: String) -> (r: ScanRequest)
        requires
            old(self).wf(),
        ensures
            final(self).wf(),
            final(self).same_selection(&*old(self)),
            final(self).keys@ == Map::<Seq<char>, KeyType>::empty(),
            final(self).cursors is None,
            final(self).scanning,
            !final(self).scan_completed,
            final(self).scan_times == 0,
            final(self).keyword@ == keyword@,
            final(self).loaded_prefixes@.len() == 0,
            final(self).tree_version == if old(self).keys@.len() == 0 {
                old(self).tree_version
            } else {
                next_version(old(self).tree_version)
            },
            r.server@ == old(self).server@,
            r.keyword@ == keyword@,
            r.pattern@ == scan_pattern(keyword@),
            r.count == page_size(keyword@),
            r.cursors is None,
    {
        self.reset_scan();
        self.scanning = true;
        self.keyword = keyword;
        let server = self.server.clone();
        let kw = self.keyword.clone();
        let r = self.scan_keys(server.as_str(), kw.as_str());
        r.unwrap()
    }

    /// Raises the cap by one round and resumes the chain, unless the scan is complete.
    pub fn scan_next(&mut self) -> (r: Option<ScanRequest>)
        requires
            old(self).wf(),
        ensures
            final(self).wf(),
            final(self).same_selection(&*old(self)),
            old(self).scan_completed ==> r is None && *final(self) == *old(self),
            !old(self).scan_completed ==> {
                &&& r is Some
                &&& final(self).scanning
                &&& final(self).scan_times == if old(self).scan_times == usize::MAX {
                    usize::MAX
                } else {
                    (old(self).scan_times + 1) as usize
                }
                &&& final(self).keys == old(self).keys
                &&& final(self).cursors == old(self).cursors
                &&& final(self).scan_completed == old(self).scan_completed
                &&& final(self).keyword == old(self).keyword
                &&& final(self).loaded_prefixes == old(self).loaded_prefixes
                &&& final(self).tree_version == old(self).tree_version
                &&& r.unwrap().server@ == old(self).server@
                &&& r.unwrap().keyword@ == old(self).keyword@
                &&& r.unwrap().pattern@ == scan_pattern(old(self).keyword@)
                &&& r.unwrap().count == page_size(old(self).keyword@)
                &&& cursor_view(r.unwrap().cursors) == cursor_view(old(self).cursors)
            },
    {
        if self.scan_completed {
            return None;
        }
        if self.scan_times < usize::MAX {
            self.scan_times = self.scan_times + 1;
        }
        self.scanning = true;
        let server = self.server.clone();
        let kw = self.keyword.clone();
        self.scan_keys(server.as_str(), kw.as_str())
    }

    /// Applies a page of the chain `(server, keyword)`; `page` is the new
    /// cursors and the keys found, or `None` when the request failed.
    ///
    /// A page of a chain that is no longer live changes nothing. Otherwise the
    /// keys are merged, the chain completes when every cursor is zero, a
    /// failure ends it and forgets the cursors, and it goes on by itself while
    /// it holds a cursor and fewer keys than the round's cap.
    pub fn apply_scan_page(
        &mut self,
        server: &str,
        keyword: &str,
        page: Option<(Vec<u64>, Vec<String>)>,
    ) -> (r: ScanStep)
        requires
            old(self).wf(),
        ensures
            final(self).wf(),
            scan_page_applied(*old(self), *final(self), server@, keyword@, page, r),
    {
        if !text_eq(self.server.as_str(), server) || !text_eq(self.keyword.as_str(), keyword) {
            return ScanStep::Dropped;
        }
        match page {
            Some((c, ks)) => {
                if self.scan_completed || cursors_done(&c) {
                    self.scan_completed = true;
                    self.cursors = None;
                } else {
                    self.cursors = Some(c);
                }
                let changed = self.keys.discover_all(ks);
                if changed {
                    self.tree_version = bump(self.tree_version);
                }
            },
            None => {
                self.cursors = None;
            },
        }
        let count = self.keys.len();
        let cap: u128 = (self.scan_times as u128 + 1) * (SCAN_RESULT_STEP as u128);
        assert(cap == scan_cap(self.scan_times));
        if self.cursors.is_some() && (count as u128) < cap {
            let r = self.scan_keys(server, keyword);
            return ScanStep::Continue(r.unwrap());
        }
        self.scanning = false;
        let root = "";
        proof {
            reveal_strlit("");
            assert(root@ =~= Seq::<char>::empty());
        }
        ScanStep::Finished(self.fill_key_types(root))
    }

    /// Merges classification results (key, store type name); `None` when the
    /// lookups failed as a whole. The tree version moves only if a type changed.
    pub fn apply_key_types(&mut self, result: Option<Vec<(String, String)>>)
        requires
            old(self).wf(),
        ensures
            final(self).wf(),
            final(self).same_selection(&*old(self)),
            final(self).cursors == old(self).cursors,
            final(self).scanning == old(self).scanning,
            final(self).scan_completed == old(self).scan_completed,
            final(self).scan_times == old(self).scan_times,
            final(self).keyword == old(self).keyword,
            final(self).loaded_prefixes == old(self).loaded_prefixes,
            match result {
                Some(rs) => final(self).keys@ == with_types(old(self).keys@, pair_views(rs@)),
                None => final(self).keys@ == old(self).keys@,
            },
            final(self).tree_version == if final(self).keys@ == old(self).keys@ {
                old(self).tree_version
            } else {
                next_version(old(self).tree_version)
            },
    {
        if let Some(rs) = result {
            let changed = self.keys.merge_types(&rs);
            if changed {
                self.tree_version = bump(self.tree_version);
            }
        }
    }
}

/// Pages a prefix expansion reads: its own chain, merged once at the end.
#[derive(Debug, Clone)]
pub struct PrefixScan {
    pub server: String,
    pub prefix: String,
    /// The match pattern to send: the prefix and `*`.
    pub pattern: String,
    pub count: u64,
    /// Where to continue; `None` asks for the first page.
    pub cursors: Option<Vec<u64>>,
    /// The keys found so far.
    pub keys: Vec<String>,
    /// Pages read so far.
    pub rounds: usize,
    /// No further page is to be read.
    pub done: bool,
    /// A page request failed; nothing is to be merged.
    pub failed: bool,
}

impl PrefixScan {
    /// Applies the reply to the next page; `None` when the request failed.
    /// Reading ends when every cursor is zero or after the round limit.
    pub fn apply_page(&mut self, page: Option<(Vec<u64>, Vec<String>)>)
        ensures
            final(self).server == old(self).server,
            final(self).prefix == old(self).prefix,
            final(self).pattern == old(self).pattern,
            final(self).count == old(self).count,
            old(self).done || old(self).rounds >= PREFIX_SCAN_ROUNDS ==> {
                &&& final(self).done
                &&& final(self).keys == old(self).keys
                &&& final(self).rounds == old(self).rounds
                &&& final(self).failed == old(self).failed
            },
            !(old(self).done || old(self).rounds >= PREFIX_SCAN_ROUNDS) ==> match page {
                None => {
                    &&& final(self).done
                    &&& final(self).failed
                    &&& final(self).keys == old(self).keys
                    &&& final(self).rounds == old(self).rounds
                },
                Some((c, ks)) => {
                    &&& final(self).keys@ == old(self).keys@ + ks@
                    &&& final(self).rounds == old(self).rounds + 1
                    &&& final(self).failed == old(self).failed
                    &&& final(self).done == (all_zero(c@) || final(self).rounds
                        >= PREFIX_SCAN_ROUNDS)
                    &&& !final(self).done ==> cursor_view(final(self).cursors) == Some(c@)
                },
            },
    {
        if self.done || self.rounds >= PREFIX_SCAN_ROUNDS {
            self.done = true;
            return;
        }
        match page {
            None => {
                self.failed = true;
                self.done = true;
            },
            Some((c, ks)) => {
                let mut ks = ks;
                self.keys.append(&mut ks);
                self.rounds = self.rounds + 1;
                if cursors_done(&c) || self.rounds >= PREFIX_SCAN_ROUNDS {
                    self.done = true;
                } else {
                    self.cursors = Some(c);
                }
            },
        }
    }

    /// The keys to merge, or `None` when a page failed.
    pub fn result(self) -> (r: Option<Vec<String>>)
        ensures
            self.failed ==> r is None,
            !self.failed ==> r == Some(self.keys),
    {
        if self.failed {
            None
        } else {
            Some(self.keys)
        }
    }
}

/// What expanding a prefix asks for.
#[derive(Debug, Clone)]
pub enum PrefixAction {
    /// Nothing is to be done.
    Skip,
    /// The keys are all known; these are to be classified.
    Resolve(TypeRequest),
    /// The prefix is to be scanned.
    Scan(PrefixScan),
}

/// `p` is one of `v`.
pub open spec fn holds_view(v: Seq<String>, p: Seq<char>) -> bool {
    exists|i: int| 0 <= i < v.len() && #[trigger] v[i]@ == p
}

fn contains_str(v: &Vec<String>, p: &str) -> (r: bool)
    ensures
        r == holds_view(v@, p@),
{
    let mut i: usize = 0;
    while i < v.len()
        invariant
            i <= v@.len(),
            forall|k: int| 0 <= k < i ==> #[trigger] v@[k]@ != p@,
        decreases v@.len() - i,
    {
        if text_eq(v[i].as_str(), p) {
            return true;
        }
        i = i + 1;
    }
    false
}

/// A request for a range of list elements, both ends included.
#[derive(Debug, Clone)]
pub struct ListPageRequest {
    pub server: String,
    pub key: String,
    pub start: usize,
    pub stop: usize,
}

/// Elements asked for per list page.
pub const LIST_PAGE: usize = 100;

/// The loaded list of a value, if it is a list.
pub open spec fn list_of(v: Option<RedisValue>) -> Option<RedisListValue> {
    match v {
        Some(x) => match x.data {
            Some(RedisValueData::List(l)) => Some(l),
            _ => None,
        },
        None => None,
    }
}

/// How the value of a selected key is to be fetched, once its type and its
/// time to live are known.
#[derive(Debug, Clone)]
pub enum ValuePlan {
    /// Nothing more to fetch: this is the value.
    Done(RedisValue),
    /// Fetch a string value; it expires as given.
    FetchString(Option<i64>),
    /// Fetch the head of a list value; it expires as given.
    FetchList(Option<i64>),
    /// The key's type is not one whose value can be loaded.
    Unsupported,
}

/// The expiry of a key whose time to live is `ttl`, seen at time `now`.
pub open spec fn expiry_of(ttl: i64, now: i64) -> Option<i64> {
    if ttl == PERSISTENT {
        Some(PERSISTENT)
    } else if ttl >= 0 {
        Some(
            if now + ttl > i64::MAX {
                i64::MAX
            } else if now + ttl < i64::MIN {
                i64::MIN
            } else {
                (now + ttl) as i64
            },
        )
    } else {
        None
    }
}

fn expiry(ttl: i64, now: i64) -> (r: Option<i64>)
    ensures
        r == expiry_of(ttl, now),
{
    if ttl == PERSISTENT {
        Some(PERSISTENT)
    } else if ttl >= 0 {
        let t: i128 = now as i128 + ttl as i128;
        if t > i64::MAX as i128 {
            Some(i64::MAX)
        } else if t < i64::MIN as i128 {
            Some(i64::MIN)
        } else {
            Some(t as i64)
        }
    } else {
        None
    }
}

/// How to load a key whose store type name is `kind` and whose time to live
/// is `ttl`, seen at time `now`: a missing key is done at once.
pub open spec fn planned(kind: Seq<char>, ttl: i64, now: i64) -> ValuePlan {
    if ttl == MISSING {
        ValuePlan::Done(
            RedisValue { key_type: KeyType::Unknown, data: None, expire_at: Some(MISSING), size: 0 },
        )
    } else {
        match key_type_of_name(kind) {
            KeyType::String => ValuePlan::FetchString(expiry_of(ttl, now)),
            KeyType::List => ValuePlan::FetchList(expiry_of(ttl, now)),
            _ => ValuePlan::Unsupported,
        }
    }
}

/// How to load a key whose store type name is `kind` and whose time to live
/// is `ttl`, seen at time `now`.
pub fn plan_value(kind: &str, ttl: i64, now: i64) -> (r: ValuePlan)
    ensures
        r == planned(kind@, ttl, now),
{
    if ttl == MISSING {
        return ValuePlan::Done(RedisValue::missing());
    }
    let e = expiry(ttl, now);
    match KeyType::from_name(kind) {
        KeyType::String => ValuePlan::FetchString(e),
        KeyType::List => ValuePlan::FetchList(e),
        _ => ValuePlan::Unsupported,
    }
}

/// The value that loading ends with: the value of a finished plan, or the
/// fetched value with the planned expiry; nothing for a type that is not
/// supported or a fetch that failed.
pub open spec fn finished(plan: ValuePlan, fetched: Option<RedisValue>) -> Option<RedisValue> {
    match plan {
        ValuePlan::Done(v) => Some(v),
        ValuePlan::FetchString(e) => match fetched {
            Some(v) => Some(RedisValue { key_type: v.key_type, data: v.data, expire_at: e, size: v.size }),
            None => None,
        },
        ValuePlan::FetchList(e) => match fetched {
            Some(v) => Some(RedisValue { key_type: v.key_type, data: v.data, expire_at: e, size: v.size }),
            None => None,
        },
        ValuePlan::Unsupported => None,
    }
}

/// Ends loading a value by `plan`; `fetched` is what the fetch it asked for
/// gave, `None` when it failed or none was made.
pub fn finish_value(plan: ValuePlan, fetched: Option<RedisValue>) -> (r: Option<RedisValue>)
    ensures
        r == finished(plan, fetched),
{
    match plan {
        ValuePlan::Done(v) => Some(v),
        ValuePlan::FetchString(e) | ValuePlan::FetchList(e) => match fetched {
            Some(v) => Some(RedisValue { key_type: v.key_type, data: v.data, expire_at: e, size: v.size }),
            None => None,
        },
        ValuePlan::Unsupported => None,
    }
}

/// The request for the head of a list value: its first page of elements.
pub fn first_list_request(server: String, key: String) -> (r: ListPageRequest)
    ensures
        r.server == server,
        r.key == key,
        r.start == 0,
        r.stop == LIST_PAGE - 1,
{
    ListPageRequest { server, key, start: 0, stop: LIST_PAGE - 1 }
}

/// `plan_value` at the current time.
pub fn plan_value_now(kind: &str, ttl: i64) -> (r: ValuePlan)
    ensures
        ttl == MISSING ==> r is Done && r->Done_0.is_blank() && r->Done_0.expire_at == Some(
            MISSING,
        ),
        ttl != MISSING ==> match key_type_of_name(kind@) {
            KeyType::String => r matches ValuePlan::FetchString(e) && (e is Some <==> ttl >= -1) && (
            ttl == PERSISTENT ==> e == Some(PERSISTENT)),
            KeyType::List => r matches ValuePlan::FetchList(e) && (e is Some <==> ttl >= -1) && (ttl
                == PERSISTENT ==> e == Some(PERSISTENT)),
            _ => r is Unsupported,
        },
{
    let now = unix_ts();
    plan_value(kind, ttl, now)
}

/// The validation error of a command.
#[derive(Debug, Clone)]
pub enum Error {
    Invalid { message: String },
}

/// The whole seconds of the duration that `s` spells, if it spells one.
pub uninterp spec fn duration_seconds(s: Seq<char>) -> Option<u64>;

/// Most ASCII digits a duration text may hold.
pub const MAX_DURATION_DIGITS: usize = 11;

/// How many ASCII digits `s` holds.
pub open spec fn digit_count(s: Seq<char>) -> nat
    decreases s.len(),
{
    if s.len() == 0 {
        0
    } else {
        digit_count(s.drop_last()) + if '0' <= s.last() && s.last() <= '9' {
            1nat
        } else {
            0nat
        }
    }
}

/// The number of ASCII digits in `s`.
pub fn count_digits(s: &str) -> (r: usize)
    ensures
        r == digit_count(s@),
{
    let n = s.unicode_len();
    let mut count: usize = 0;
    let mut i: usize = 0;
    while i < n
        invariant
            n == s@.len(),
            i <= n,
            count == digit_count(s@.subrange(0, i as int)),
            count <= i,
        decreases n - i,
    {
        let c = s.get_char(i);
        assert(s@.subrange(0, i + 1).drop_last() =~= s@.subrange(0, i as int));
        if '0' <= c && c <= '9' {
            count = count + 1;
        }
        i = i + 1;
    }
    assert(s@.subrange(0, n as int) =~= s@);
    count
}

/// Relies on humantime::parse_duration: whether `s` spells a duration, and
/// which, depends on `s` alone; the error is turned into its message.
///
/// The parser panics only in `Duration::new`, when the seconds so far are
/// `u64::MAX` and exactly one more second of nanoseconds is added. Numbers
/// are read from ASCII digits alone, and the largest unit is a year of
/// 31,557,600 s; with at most 11 digits in the text the integer parts stay
/// below 10^11, fractional parts add less than one unit each, and sub-second
/// parts less than 10^8 s, so the total stays below 4 * 10^18 s and the
/// panic cannot occur.
#[verifier::external_body]
fn parse_duration_secs(s: &str) -> (r: Result<u64, String>)
    requires
        digit_count(s@) <= MAX_DURATION_DIGITS,
    ensures
        r is Ok <==> duration_seconds(s@) is Some,
        r is Ok ==> duration_seconds(s@) == Some(r->Ok_0),
{
    humantime::parse_duration(s).map(|d| d.as_secs()).map_err(|e| e.to_string())
}

/// A write of a string value.
#[derive(Debug, Clone)]
pub struct SaveRequest {
    pub server: String,
    pub key: String,
    pub value: String,
}

/// An expiry to set, in seconds from now.
#[derive(Debug, Clone)]
pub struct TtlRequest {
    pub server: String,
    pub key: String,
    pub seconds: i64,
}

/// A key to delete.
#[derive(Debug, Clone)]
pub struct DeleteRequest {
    pub server: String,
    pub key: String,
}

impl ZedisServerState {
    /// `k` is the selected key.
    pub open spec fn is_selected(&self, k: Seq<char>) -> bool {
        self.key is Some && self.key.unwrap()@ == k
    }

    /// The selected key, or nothing.
    pub open spec fn selected(&self) -> Seq<char> {
        match self.key {
            Some(k) => k@,
            None => Seq::empty(),
        }
    }

    fn selected_is(&self, k: &str) -> (r: bool)
        ensures
            r == self.is_selected(k@),
    {
        match &self.key {
            Some(s) => text_eq(s.as_str(), k),
            None => false,
        }
    }

    /// Expands the folder `prefix`: nothing when it was loaded before, the
    /// classification of its keys when the scan is complete, else a scan of it.
    pub fn scan_prefix(&mut self, prefix: String) -> (r: PrefixAction)
        requires
            old(self).wf(),
        ensures
            final(self).wf(),
            holds_view(old(self).loaded_prefixes@, prefix@) ==> r is Skip && *final(self) == *old(
                self,
            ),
            !holds_view(old(self).loaded_prefixes@, prefix@) && old(self).scan_completed ==> {
                &&& *final(self) == *old(self)
                &&& (r is Skip || r is Resolve)
                &&& r is Resolve ==> r->Resolve_0.server == old(self).server
                &&& r is Resolve ==> r->Resolve_0.keys@.len() > 0
                &&& r is Resolve ==> forall|a: int, b: int|
                    0 <= a < b < r->Resolve_0.keys@.len() ==> #[trigger] r->Resolve_0.keys@[a]@
                        != #[trigger] r->Resolve_0.keys@[b]@
                &&& r is Resolve ==> forall|i: int|
                    0 <= i < r->Resolve_0.keys@.len() ==> {
                        let k = #[trigger] r->Resolve_0.keys@[i]@;
                        &&& old(self).keys@.contains_key(k)
                        &&& old(self).keys@[k] == KeyType::Unknown
                        &&& is_direct_child(k, prefix@, old(self).separator@)
                    }
                &&& forall|k: Seq<char>|
                    #[trigger] old(self).keys@.contains_key(k) && old(self).keys@[k]
                        == KeyType::Unknown && is_direct_child(k, prefix@, old(self).separator@)
                        ==> r is Resolve && exists|i: int|
                        0 <= i < r->Resolve_0.keys@.len() && r->Resolve_0.keys@[i]@ == k
            },
            !holds_view(old(self).loaded_prefixes@, prefix@) && !old(self).scan_completed ==> {
                &&& final(self).same_scan(&*old(self))
                &&& final(self).key == old(self).key
                &&& final(self).value == old(self).value
                &&& final(self).deleting == old(self).deleting
                &&& final(self).updating == old(self).updating
                &&& r is Scan
                &&& r->Scan_0.server == old(self).server
                &&& r->Scan_0.prefix@ == prefix@
                &&& r->Scan_0.pattern@ == prefix@ + seq!['*']
                &&& r->Scan_0.count == SCAN_PAGE_FILTERED
                &&& r->Scan_0.cursors is None
                &&& r->Scan_0.keys@.len() == 0
                &&& r->Scan_0.rounds == 0
                &&& !r->Scan_0.done
                &&& !r->Scan_0.failed
            },
    {
        if contains_str(&self.loaded_prefixes, prefix.as_str()) {
            return PrefixAction::Skip;
        }
        if self.scan_completed {
            return match self.fill_key_types(prefix.as_str()) {
                Some(t) => PrefixAction::Resolve(t),
                None => PrefixAction::Skip,
            };
        }
        self.last_operated_at = unix_ts();
        let mut pattern = prefix.clone();
        pattern.append("*");
        proof {
            reveal_strlit("*");
        }
        PrefixAction::Scan(
            PrefixScan {
                server: self.server.clone(),
                prefix,
                pattern,
                count: SCAN_PAGE_FILTERED,
                cursors: None,
                keys: Vec::new(),
                rounds: 0,
                done: false,
                failed: false,
            },
        )
    }

    /// Applies the keys that the expansion of `prefix` found (`None` when it
    /// failed): they are merged and the prefix counts as loaded. Returns the
    /// classification requests for the prefix's `Unknown` keys.
    pub fn apply_prefix_scan(&mut self, prefix: String, result: Option<Vec<String>>) -> (r: Option<
        TypeRequest,
    >)
        requires
            old(self).wf(),
        ensures
            final(self).wf(),
            final(self).same_selection(&*old(self)),
            final(self).cursors == old(self).cursors,
            final(self).scanning == old(self).scanning,
            final(self).scan_completed == old(self).scan_completed,
            final(self).scan_times == old(self).scan_times,
            final(self).keyword == old(self).keyword,
            match result {
                Some(ks) => {
                    &&& final(self).keys@ == with_discovered(old(self).keys@, views(ks@))
                    &&& final(self).loaded_prefixes@ == old(self).loaded_prefixes@.push(prefix)
                },
                None => {
                    &&& final(self).keys@ == old(self).keys@
                    &&& final(self).loaded_prefixes == old(self).loaded_prefixes
                },
            },
            final(self).tree_version == if final(self).keys@ == old(self).keys@ {
                old(self).tree_version
            } else {
                next_version(old(self).tree_version)
            },
            forall|k: Seq<char>|
                #[trigger] final(self).keys@.contains_key(k) && final(self).keys@[k]
                    == KeyType::Unknown && is_direct_child(k, prefix@, final(self).separator@)
                    ==> r is Some,
    {
        if let Some(ks) = result {
            let p = prefix.clone();
            self.loaded_prefixes.push(p);
            let changed = self.keys.discover_all(ks);
            if changed {
                self.tree_version = bump(self.tree_version);
            }
        }
        self.fill_key_types(prefix.as_str())
    }

    /// Selects `key`. Returns the key whose value is to be loaded: none when
    /// it was selected already or is empty.
    pub fn select_key(&mut self, key: String) -> (r: Option<String>)
        requires
            old(self).wf(),
        ensures
            final(self).wf(),
            final(self).same_scan(&*old(self)),
            final(self).value == old(self).value,
            final(self).deleting == old(self).deleting,
            final(self).updating == old(self).updating,
            old(self).selected() == key@ ==> r is None && *final(self) == *old(self),
            old(self).selected() != key@ ==> {
                &&& final(self).key == Some(key)
                &&& key@.len() == 0 ==> r is None && final(self).last_operated_at
                    == old(self).last_operated_at
                &&& key@.len() > 0 ==> r is Some && r.unwrap()@ == key@
            },
    {
        let same = match &self.key {
            Some(k) => text_eq(k.as_str(), key.as_str()),
            None => key.unicode_len() == 0,
        };
        assert(key@.len() == 0 ==> key@ =~= Seq::<char>::empty());
        if same {
            return None;
        }
        let empty = key.unicode_len() == 0;
        let k = key.clone();
        self.key = Some(key);
        if empty {
            return None;
        }
        self.last_operated_at = unix_ts();
        Some(k)
    }

    /// Applies the loaded value of `key`, or `None` when loading failed or the
    /// type is not supported. A reply for a key that is no longer selected is
    /// ignored.
    pub fn apply_selected_value(&mut self, key: &str, result: Option<RedisValue>)
        requires
            old(self).wf(),
        ensures
            final(self).wf(),
            final(self).same_scan(&*old(self)),
            final(self).key == old(self).key,
            final(self).deleting == old(self).deleting,
            final(self).updating == old(self).updating,
            final(self).last_operated_at == old(self).last_operated_at,
            final(self).value == if old(self).is_selected(key@) {
                result
            } else {
                old(self).value
            },
    {
        if self.selected_is(key) {
            self.value = result;
        }
    }

    /// The request for the next page of the selected list value: none when no
    /// list is selected or all of it is loaded.
    pub fn load_more_list_value(&self) -> (r: Option<ListPageRequest>)
        ensures
            r is Some <==> (self.selected().len() > 0 && list_of(self.value) is Some
                && list_of(self.value).unwrap().values@.len() < list_of(self.value).unwrap().size),
            r is Some ==> {
                let l = list_of(self.value).unwrap();
                &&& r.unwrap().server == self.server
                &&& r.unwrap().key@ == self.selected()
                &&& r.unwrap().start == l.values@.len()
                &&& r.unwrap().stop == if l.values@.len() + LIST_PAGE - 1 > usize::MAX {
                    usize::MAX as int
                } else {
                    l.values@.len() + LIST_PAGE - 1
                }
            },
    {
        let key = match &self.key {
            Some(k) => k,
            None => return None,
        };
        if key.unicode_len() == 0 {
            return None;
        }
        let l = match &self.value {
            Some(v) => match v.list_value() {
                Some(l) => l,
                None => return None,
            },
            None => return None,
        };
        let start = l.values.len();
        if start >= l.size {
            return None;
        }
        Some(
            ListPageRequest {
                server: self.server.clone(),
                key: key.clone(),
                start,
                stop: if start > usize::MAX - (LIST_PAGE - 1) {
                    usize::MAX
                } else {
                    start + (LIST_PAGE - 1)
                },
            },
        )
    }

    /// Appends a page of list elements that starts at `start`, when `key` is
    /// still selected and exactly `start` elements are loaded; `None` when the
    /// request failed.
    pub fn apply_list_page(&mut self, key: &str, start: usize, items: Option<Vec<String>>)
        requires
            old(self).wf(),
        ensures
            final(self).wf(),
            final(self).same_scan(&*old(self)),
            final(self).key == old(self).key,
            final(self).deleting == old(self).deleting,
            final(self).updating == old(self).updating,
            final(self).last_operated_at == old(self).last_operated_at,
            ({
                let applies = items is Some && old(self).is_selected(key@) && list_of(
                    old(self).value,
                ) is Some && list_of(old(self).value).unwrap().values@.len() == start;
                &&& !applies ==> final(self).value == old(self).value
                &&& applies ==> {
                    let l = list_of(old(self).value).unwrap();
                    let v = old(self).value.unwrap();
                    &&& final(self).value is Some
                    &&& final(self).value.unwrap().key_type == v.key_type
                    &&& final(self).value.unwrap().expire_at == v.expire_at
                    &&& final(self).value.unwrap().size == v.size
                    &&& list_of(final(self).value) is Some
                    &&& list_of(final(self).value).unwrap().size == l.size
                    &&& list_of(final(self).value).unwrap().values@ == l.values@ + items.unwrap()@
                }
            }),
    {
        let mut items = match items {
            Some(v) => v,
            None => return,
        };
        if !self.selected_is(key) {
            return;
        }
        let v = match &self.value {
            Some(v) => v,
            None => return,
        };
        let l = match v.list_value() {
            Some(l) => l,
            None => return,
        };
        if l.values.len() != start {
            return;
        }
        let mut values = l.values.clone();
        assert(values@ =~= l.values@);
        values.append(&mut items);
        let updated = RedisValue {
            key_type: v.key_type,
            data: Some(RedisValueData::List(RedisListValue { size: l.size, values })),
            expire_at: v.expire_at,
            size: v.size,
        };
        self.value = Some(updated);
    }

    /// Starts writing `value` to `key`.
    pub fn save_value(&mut self, key: String, value: String) -> (r: SaveRequest)
        requires
            old(self).wf(),
        ensures
            final(self).wf(),
            final(self).same_scan(&*old(self)),
            final(self).key == old(self).key,
            final(self).value == old(self).value,
            final(self).deleting == old(self).deleting,
            final(self).updating,
            r.server == old(self).server,
            r.key == key,
            r.value == value,
    {
        self.updating = true;
        self.last_operated_at = unix_ts();
        SaveRequest { server: self.server.clone(), key, value }
    }

    /// Applies the outcome of a write to `key`: the written text, or `None` when
    /// it failed. On success the selected value of that key takes the text.
    pub fn apply_save(&mut self, key: &str, result: Option<String>)
        requires
            old(self).wf(),
        ensures
            final(self).wf(),
            final(self).same_scan(&*old(self)),
            final(self).key == old(self).key,
            final(self).deleting == old(self).deleting,
            final(self).last_operated_at == old(self).last_operated_at,
            !final(self).updating,
            ({
                let applies = result is Some && old(self).is_selected(key@) && old(self).value is Some;
                &&& !applies ==> final(self).value == old(self).value
                &&& applies ==> {
                    let v = old(self).value.unwrap();
                    let t = result.unwrap();
                    &&& final(self).value is Some
                    &&& final(self).value.unwrap().key_type == v.key_type
                    &&& final(self).value.unwrap().expire_at == v.expire_at
                    &&& final(self).value.unwrap().size == encode_utf8(t@).len() as usize
                    &&& final(self).value.unwrap().data == Some(RedisValueData::String(t))
                }
            }),
    {
        self.updating = false;
        let text = match result {
            Some(t) => t,
            None => return,
        };
        if !self.selected_is(key) {
            return;
        }
        let v = match &self.value {
            Some(v) => v,
            None => return,
        };
        let size = text.as_str().len();
        let updated = RedisValue {
            key_type: v.key_type,
            data: Some(RedisValueData::String(text)),
            expire_at: v.expire_at,
            size,
        };
        self.value = Some(updated);
    }

    /// Starts setting the expiry of `key` to the duration `ttl` spells
    /// ("1h30m"). A text that spells no duration, or one too long, is an error
    /// and changes nothing.
    pub fn update_value_ttl(&mut self, key: String, ttl: String) -> (r: Result<TtlRequest, Error>)
        requires
            old(self).wf(),
        ensures
            final(self).wf(),
            r is Err <==> (digit_count(ttl@) > MAX_DURATION_DIGITS || duration_seconds(ttl@) is None
                || duration_seconds(ttl@).unwrap() > i64::MAX),
            r is Err ==> *final(self) == *old(self),
            r is Ok ==> {
                &&& final(self).same_scan(&*old(self))
                &&& final(self).key == old(self).key
                &&& final(self).value == old(self).value
                &&& final(self).deleting == old(self).deleting
                &&& final(self).updating
                &&& r->Ok_0.server == old(self).server
                &&& r->Ok_0.key == key
                &&& r->Ok_0.seconds == duration_seconds(ttl@).unwrap()
            },
    {
        if count_digits(ttl.as_str()) > MAX_DURATION_DIGITS {
            return Err(Error::Invalid { message: String::from_str("duration has too many digits") });
        }
        let secs = match parse_duration_secs(ttl.as_str()) {
            Ok(s) => s,
            Err(message) => return Err(Error::Invalid { message }),
        };
        if secs > i64::MAX as u64 {
            return Err(Error::Invalid { message: String::from_str("duration is too long") });
        }
        self.updating = true;
        self.last_operated_at = unix_ts();
        Ok(TtlRequest { server: self.server.clone(), key, seconds: secs as i64 })
    }

    /// Applies the outcome of setting `key` to expire `seconds` after `now`.
    pub fn apply_ttl_at(&mut self, key: &str, seconds: i64, ok: bool, now: i64)
        requires
            old(self).wf(),
            seconds >= 0,
        ensures
            final(self).wf(),
            final(self).same_scan(&*old(self)),
            final(self).key == old(self).key,
            final(self).deleting == old(self).deleting,
            final(self).last_operated_at == old(self).last_operated_at,
            !final(self).updating,
            ({
                let applies = ok && old(self).is_selected(key@) && old(self).value is Some;
                &&& !applies ==> final(self).value == old(self).value
                &&& applies ==> {
                    let v = old(self).value.unwrap();
                    &&& final(self).value is Some
                    &&& final(self).value.unwrap().key_type == v.key_type
                    &&& final(self).value.unwrap().data == v.data
                    &&& final(self).value.unwrap().size == v.size
                    &&& final(self).value.unwrap().expire_at == expiry_of(seconds, now)
                }
            }),
    {
        self.updating = false;
        if !ok || !self.selected_is(key) {
            return;
        }
        let e = expiry(seconds, now);
        match &mut self.value {
            Some(v) => {
                v.expire_at = e;
            },
            None => {},
        }
    }

    /// `apply_ttl_at` at the current time.
    pub fn apply_ttl(&mut self, key: &str, seconds: i64, ok: bool)
        requires
            old(self).wf(),
            seconds >= 0,
        ensures
            final(self).wf(),
            final(self).same_scan(&*old(self)),
            final(self).key == old(self).key,
            final(self).deleting == old(self).deleting,
            final(self).last_operated_at == old(self).last_operated_at,
            !final(self).updating,
            ({
                let applies = ok && old(self).is_selected(key@) && old(self).value is Some;
                &&& !applies ==> final(self).value == old(self).value
                &&& applies ==> {
                    let v = old(self).value.unwrap();
                    &&& final(self).value is Some
                    &&& final(self).value.unwrap().key_type == v.key_type
                    &&& final(self).value.unwrap().data == v.data
                    &&& final(self).value.unwrap().size == v.size
                    &&& final(self).value.unwrap().expire_at is Some
                }
            }),
    {
        let now = unix_ts();
        self.apply_ttl_at(key, seconds, ok, now);
    }

    /// Starts deleting `key`.
    pub fn delete_key(&mut self, key: String) -> (r: DeleteRequest)
        requires
            old(self).wf(),
        ensures
            final(self).wf(),
            final(self).same_scan(&*old(self)),
            final(self).key == old(self).key,
            final(self).value == old(self).value,
            final(self).updating == old(self).updating,
            final(self).deleting,
            r.server == old(self).server,
            r.key == key,
    {
        self.deleting = true;
        self.last_operated_at = unix_ts();
        DeleteRequest { server: self.server.clone(), key }
    }

    /// Applies the outcome of deleting `key`. On success the key leaves the
    /// map and, if it was selected, the selection and its value are cleared;
    /// on failure nothing but the busy flag changes.
    pub fn apply_delete(&mut self, key: &str, ok: bool)
        requires
            old(self).wf(),
        ensures
            final(self).wf(),
            delete_applied(*old(self), *final(self), key@, ok),
    {
        self.deleting = false;
        if !ok {
            return;
        }
        let removed = self.keys.remove(key);
        if removed {
            self.tree_version = bump(self.tree_version);
        }
        if self.selected_is(key) {
            self.key = None;
            self.value = None;
        }
    }
}

/// Below this many keys every folder of the tree is open.
pub const AUTO_EXPAND_LIMIT: usize = 20;

impl ZedisServerState {
    /// The number of discovered keys.
    pub fn scan_count(&self) -> (r: usize)
        requires
            self.wf(),
        ensures
            r == self.keys@.len(),
    {
        self.keys.len()
    }

    /// Whether the tree opens every folder: few keys are known.
    pub fn auto_expand(&self) -> (r: bool)
        requires
            self.wf(),
        ensures
            r == (self.keys@.len() < AUTO_EXPAND_LIMIT),
    {
        self.keys.len() < AUTO_EXPAND_LIMIT
    }

    /// The tree of the discovered keys, split on the separator, at most
    /// `max_depth` levels deep, with the folders in `expanded` open (all of
    /// them with `expand_all`).
    pub fn key_tree(&self, expanded: &Vec<String>, expand_all: bool, max_depth: usize) -> (r: Vec<
        KeyTreeItem,
    >)
        requires
            self.wf(),
        ensures
            exists|keys: Seq<String>|
                {
                    &&& keys.len() == self.keys@.len()
                    &&& forall|i: int| 0 <= i < keys.len() ==> self.keys@.contains_key(#[trigger] keys[i]@)
                    &&& forall|k: Seq<char>| #[trigger] self.keys@.contains_key(k) ==> has_key(keys, k)
                    &&& tree_ok(r@, keys, Seq::empty(), self.separator@, 0, max_depth, expanded@, expand_all)
                },
    {
        let keys = self.keys.key_list();
        let r = key_tree(&keys, self.separator.as_str(), max_depth, expanded, expand_all);
        proof {
            assert forall|k: Seq<char>| #[trigger] self.keys@.contains_key(k) implies has_key(keys@, k) by {
                let i = choose|i: int| 0 <= i < keys@.len() && keys@[i]@ == k;
            }
        }
        r
    }
}

} // verus!
