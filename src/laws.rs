//! Laws that relate the engine's operations.
use vstd::prelude::*;
use crate::keys::with_types;
use crate::server::{
    all_zero, continues, cursor_view, delete_applied, finished, planned, scan_page_applied, ScanStep,
    ZedisServerState,
};
use crate::value::{key_type_of_name, KeyType, RedisValue, MISSING, PERSISTENT};

verus! {

/// The type that the last classification of `k` in `rs` gives, if any.
pub open spec fn last_type(rs: Seq<(Seq<char>, Seq<char>)>, k: Seq<char>) -> Option<KeyType>
    decreases rs.len(),
{
    if rs.len() == 0 {
        None
    } else if rs.last().0 == k {
        Some(key_type_of_name(rs.last().1))
    } else {
        last_type(rs.drop_last(), k)
    }
}

/// Merging classifications keeps the set of keys, and each key takes the type
/// of its last classification, if it has one.
pub proof fn lemma_with_types(m: Map<Seq<char>, KeyType>, rs: Seq<(Seq<char>, Seq<char>)>)
    ensures
        with_types(m, rs).dom() == m.dom(),
        forall|k: Seq<char>| #[trigger]
            m.contains_key(k) ==> with_types(m, rs)[k] == match last_type(rs, k) {
                Some(t) => t,
                None => m[k],
            },
    decreases rs.len(),
{
    if rs.len() > 0 {
        lemma_with_types(m, rs.drop_last());
        let m1 = with_types(m, rs.drop_last());
        if m1.contains_key(rs.last().0) {
            assert(m1.insert(rs.last().0, key_type_of_name(rs.last().1)).dom() =~= m1.dom());
        }
    }
}

/// Classifying the same keys twice with the same results leaves the key map as
/// the first time: the second merge changes nothing, so the tree version does
/// not move.
pub proof fn law_type_merge_idempotent(m: Map<Seq<char>, KeyType>, rs: Seq<(Seq<char>, Seq<char>)>)
    ensures
        with_types(with_types(m, rs), rs) == with_types(m, rs),
{
    let m1 = with_types(m, rs);
    lemma_with_types(m, rs);
    lemma_with_types(m1, rs);
    assert(with_types(m1, rs) =~= m1);
}

/// A page of a chain whose filter was superseded by a newer scan is dropped:
/// the state keeps only the newer scan's effects.
pub proof fn law_stale_page_dropped(
    old: ZedisServerState,
    new: ZedisServerState,
    server: Seq<char>,
    old_filter: Seq<char>,
    page: Option<(Vec<u64>, Vec<String>)>,
    r: ScanStep,
)
    requires
        old.keyword@ != old_filter,
        scan_page_applied(old, new, server, old_filter, page, r),
    ensures
        r is Dropped,
        new == old,
{
}

/// Every page of a live chain leaves it live.
proof fn lemma_chain_live(
    states: Seq<ZedisServerState>,
    pages: Seq<Option<(Vec<u64>, Vec<String>)>>,
    steps: Seq<ScanStep>,
    server: Seq<char>,
    keyword: Seq<char>,
    j: int,
)
    requires
        states.len() == pages.len() + 1,
        steps.len() == pages.len(),
        forall|k: int|
            0 <= k < pages.len() ==> scan_page_applied(
                #[trigger] states[k],
                states[k + 1],
                server,
                keyword,
                pages[k],
                steps[k],
            ),
        states[0].is_live(server, keyword),
        0 <= j < states.len(),
    ensures
        states[j].is_live(server, keyword),
    decreases j,
{
    if j > 0 {
        lemma_chain_live(states, pages, steps, server, keyword, j - 1);
        assert(scan_page_applied(states[j - 1], states[j], server, keyword, pages[j - 1], steps[j - 1]));
    }
}

/// In a chain of applied pages (`states[k]` to `states[k + 1]` by `pages[k]`)
/// that starts live, once page `i` brings cursors that are all zero the scan
/// is complete with no cursor, and that page and every later one finish the
/// chain: no further page is asked for, and scanning is off.
pub proof fn law_chain_completes(
    states: Seq<ZedisServerState>,
    pages: Seq<Option<(Vec<u64>, Vec<String>)>>,
    steps: Seq<ScanStep>,
    server: Seq<char>,
    keyword: Seq<char>,
    i: int,
)
    requires
        states.len() == pages.len() + 1,
        steps.len() == pages.len(),
        forall|k: int|
            0 <= k < pages.len() ==> scan_page_applied(
                #[trigger] states[k],
                states[k + 1],
                server,
                keyword,
                pages[k],
                steps[k],
            ),
        states[0].is_live(server, keyword),
        0 <= i < pages.len(),
        pages[i] is Some,
        all_zero(pages[i].unwrap().0@),
    ensures
        forall|j: int|
            i <= j < pages.len() ==> {
                &&& (#[trigger] states[j + 1]).scan_completed
                &&& states[j + 1].cursors is None
                &&& !states[j + 1].scanning
                &&& steps[j] is Finished
            },
{
    assert forall|j: int| i <= j < pages.len() implies {
        &&& (#[trigger] states[j + 1]).scan_completed
        &&& states[j + 1].cursors is None
        &&& !states[j + 1].scanning
        &&& steps[j] is Finished
    } by {
        lemma_chain_completed_at(states, pages, steps, server, keyword, i, j);
    }
}

proof fn lemma_chain_completed_at(
    states: Seq<ZedisServerState>,
    pages: Seq<Option<(Vec<u64>, Vec<String>)>>,
    steps: Seq<ScanStep>,
    server: Seq<char>,
    keyword: Seq<char>,
    i: int,
    j: int,
)
    requires
        states.len() == pages.len() + 1,
        steps.len() == pages.len(),
        forall|k: int|
            0 <= k < pages.len() ==> scan_page_applied(
                #[trigger] states[k],
                states[k + 1],
                server,
                keyword,
                pages[k],
                steps[k],
            ),
        states[0].is_live(server, keyword),
        0 <= i <= j < pages.len(),
        pages[i] is Some,
        all_zero(pages[i].unwrap().0@),
    ensures
        states[j + 1].scan_completed,
        states[j + 1].cursors is None,
        !states[j + 1].scanning,
        steps[j] is Finished,
    decreases j - i,
{
    lemma_chain_live(states, pages, steps, server, keyword, j);
    assert(scan_page_applied(states[j], states[j + 1], server, keyword, pages[j], steps[j]));
    if j > i {
        lemma_chain_completed_at(states, pages, steps, server, keyword, i, j - 1);
    }
    assert(!continues(states[j + 1].cursors is Some, states[j + 1].keys@.len() as int, states[j].scan_times));
}

/// A live chain whose page brings more keys and cursors that are not all zero
/// goes on by itself exactly while it holds fewer keys than a thousand in the
/// first round and two thousand in the second; when it stops, the scan is not
/// complete and keeps the page's cursors for the next round.
pub proof fn law_scan_cap_on_page(
    old: ZedisServerState,
    new: ZedisServerState,
    server: Seq<char>,
    keyword: Seq<char>,
    page: Option<(Vec<u64>, Vec<String>)>,
    r: ScanStep,
)
    requires
        scan_page_applied(old, new, server, keyword, page, r),
        old.is_live(server, keyword),
        !old.scan_completed,
        page is Some,
        !all_zero(page.unwrap().0@),
    ensures
        old.scan_times == 0 ==> (r is Continue <==> new.keys@.len() < 1000),
        old.scan_times == 1 ==> (r is Continue <==> new.keys@.len() < 2000),
        !(r is Continue) ==> !new.scanning && !new.scan_completed && cursor_view(new.cursors)
            == Some(page.unwrap().0@),
{
}

/// Loading a key that does not exist needs no value fetch and ends with the
/// missing mark; a persistent string or list value ends with the persistent
/// mark, and one with `ttl` seconds left expires `ttl` seconds after `now`.
pub proof fn law_ttl_on_load(kind: Seq<char>, ttl: i64, now: i64, fetched: Option<RedisValue>)
    ensures
        ttl == MISSING ==> planned(kind, ttl, now) is Done && finished(planned(kind, ttl, now), fetched)
            is Some && finished(planned(kind, ttl, now), fetched).unwrap().expire_at == Some(MISSING),
        ttl == PERSISTENT && fetched is Some && (key_type_of_name(kind) == KeyType::String
            || key_type_of_name(kind) == KeyType::List) ==> finished(planned(kind, ttl, now), fetched)
            is Some && finished(planned(kind, ttl, now), fetched).unwrap().expire_at == Some(PERSISTENT),
        ttl >= 0 && now + ttl <= i64::MAX && fetched is Some && (key_type_of_name(kind) == KeyType::String
            || key_type_of_name(kind) == KeyType::List) ==> finished(planned(kind, ttl, now), fetched)
            is Some && finished(planned(kind, ttl, now), fetched).unwrap().expire_at == Some(
            (now + ttl) as i64,
        ),
{
}

/// A successful delete of a present key removes exactly that key, moves the
/// tree version, clears the busy flag and, if the key was selected, the
/// selection and its value.
pub proof fn law_delete_removes_one(old: ZedisServerState, new: ZedisServerState, key: Seq<char>)
    requires
        old.wf(),
        delete_applied(old, new, key, true),
        old.keys@.contains_key(key),
    ensures
        !new.keys@.contains_key(key),
        new.keys@.len() == old.keys@.len() - 1,
        forall|k2: Seq<char>| k2 != key ==> (#[trigger] new.keys@.contains_key(k2)) == old.keys@.contains_key(k2)
            && (old.keys@.contains_key(k2) ==> new.keys@[k2] == old.keys@[k2]),
        new.tree_version != old.tree_version,
        !new.deleting,
        old.is_selected(key) ==> new.key is None && new.value is None,
{
    old.keys.lemma_finite();
}

/// A failed delete leaves the keys, the tree version and the selection as
/// they were, and clears the busy flag.
pub proof fn law_failed_delete(old: ZedisServerState, new: ZedisServerState, key: Seq<char>)
    requires
        delete_applied(old, new, key, false),
    ensures
        new.keys@ == old.keys@,
        new.tree_version == old.tree_version,
        new.key == old.key,
        new.value == old.value,
        !new.deleting,
{
}

} // verus!
