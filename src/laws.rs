//! What holds across calls of the allocator and the resolver on one store.
use crate::allocator::{allocated, AllocError, AllocPolicy};
use crate::resolver::{resolved_as, ResolveError, ResolvedLink};
use crate::store::{first_with_url, has_code, has_url, valid_links, LinkModel, LinkStore};
use vstd::prelude::*;

verus! {

/// An allocation keeps the data model's invariants: codes stay unique and each
/// URL keeps at most one code.
pub proof fn lemma_allocation_keeps_links_valid(
    s0: Seq<LinkModel>,
    url: Seq<char>,
    policy: AllocPolicy,
    s1: Seq<LinkModel>,
    r: Result<(String, i64), AllocError>,
)
    requires
        valid_links(s0),
        allocated(s0, url, policy, s1, r),
    ensures
        valid_links(s1),
{
    if !has_url(s0, url) && r is Ok {
        let n = s0.len() as int;
        assert forall|i: int, j: int|
            0 <= i < s1.len() && 0 <= j < s1.len() && i != j implies #[trigger] s1[i].short_code
            != #[trigger] s1[j].short_code by {
            if i == n {
                assert(s0[j] == s1[j]);
            } else if j == n {
                assert(s0[i] == s1[i]);
            } else {
                assert(s0[i] == s1[i] && s0[j] == s1[j]);
            }
        }
        assert forall|i: int, j: int|
            0 <= i < s1.len() && 0 <= j < s1.len() && i != j implies #[trigger] s1[i].original_url
            != #[trigger] s1[j].original_url by {
            if i == n {
                assert(s0[j] == s1[j]);
            } else if j == n {
                assert(s0[i] == s1[i]);
            } else {
                assert(s0[i] == s1[i] && s0[j] == s1[j]);
            }
        }
    }
}

/// After a successful allocation the store holds a record that pairs the URL
/// with the returned code and creation time.
pub proof fn lemma_allocation_records_link(
    s0: Seq<LinkModel>,
    url: Seq<char>,
    policy: AllocPolicy,
    s1: Seq<LinkModel>,
    r: Result<(String, i64), AllocError>,
)
    requires
        allocated(s0, url, policy, s1, r),
        r is Ok,
    ensures
        exists|i: int|
            0 <= i < s1.len() && (#[trigger] s1[i]).original_url == url && s1[i].short_code
                == r->Ok_0.0@ && s1[i].created_at == r->Ok_0.1,
{
    if !has_url(s0, url) {
        assert(s1[s0.len() as int].original_url == url);
    }
}

/// Allocating the same URL twice in a row returns the same code and creation
/// time, the second call leaves the store unchanged, and the store then holds
/// exactly one record for the URL.
pub proof fn lemma_allocation_idempotent(
    store0: LinkStore,
    url: Seq<char>,
    policy: AllocPolicy,
    s1: Seq<LinkModel>,
    r1: Result<(String, i64), AllocError>,
    s2: Seq<LinkModel>,
    r2: Result<(String, i64), AllocError>,
)
    requires
        store0.wf(),
        allocated(store0@, url, policy, s1, r1),
        r1 is Ok,
        allocated(s1, url, policy, s2, r2),
    ensures
        r2 is Ok,
        r2->Ok_0.0@ == r1->Ok_0.0@,
        r2->Ok_0.1 == r1->Ok_0.1,
        s2 == s1,
        exists|i: int|
            0 <= i < s2.len() && (#[trigger] s2[i]).original_url == url && forall|j: int|
                0 <= j < s2.len() && (#[trigger] s2[j]).original_url == url ==> j == i,
{
    let s0 = store0@;
    store0.lemma_links_valid();
    lemma_allocation_keeps_links_valid(s0, url, policy, s1, r1);
    lemma_allocation_records_link(s0, url, policy, s1, r1);
    let i = choose|i: int|
        0 <= i < s1.len() && (#[trigger] s1[i]).original_url == url && s1[i].short_code
            == r1->Ok_0.0@ && s1[i].created_at == r1->Ok_0.1;
    assert(has_url(s1, url));
    let k = choose|k: int|
        first_with_url(s1, url, k) && (#[trigger] s1[k]).short_code == r2->Ok_0.0@
            && s1[k].created_at == r2->Ok_0.1;
    assert(k == i) by {
        if k != i {
            assert(s1[k].original_url != s1[i].original_url);
        }
    }
    assert forall|j: int| 0 <= j < s2.len() && (#[trigger] s2[j]).original_url == url implies j
        == i by {
        if j != i {
            assert(s1[j].original_url != s1[i].original_url);
        }
    }
}

/// The code that an allocation returns resolves to the allocated URL and its
/// creation time.
pub proof fn lemma_round_trip(
    store0: LinkStore,
    url: Seq<char>,
    policy: AllocPolicy,
    s1: Seq<LinkModel>,
    r: Result<(String, i64), AllocError>,
    resolution: Result<ResolvedLink, ResolveError>,
)
    requires
        store0.wf(),
        allocated(store0@, url, policy, s1, r),
        r is Ok,
        resolved_as(s1, r->Ok_0.0@, resolution),
    ensures
        resolution is Ok,
        resolution->Ok_0.original_url@ == url,
        resolution->Ok_0.created_at == r->Ok_0.1,
{
    let s0 = store0@;
    store0.lemma_links_valid();
    lemma_allocation_keeps_links_valid(s0, url, policy, s1, r);
    lemma_allocation_records_link(s0, url, policy, s1, r);
    let i = choose|i: int|
        0 <= i < s1.len() && (#[trigger] s1[i]).original_url == url && s1[i].short_code
            == r->Ok_0.0@ && s1[i].created_at == r->Ok_0.1;
    assert(has_code(s1, r->Ok_0.0@));
    let k = choose|k: int|
        0 <= k < s1.len() && (#[trigger] s1[k]).short_code == r->Ok_0.0@ && s1[k].original_url
            == resolution->Ok_0.original_url@ && s1[k].created_at == resolution->Ok_0.created_at;
    assert(k == i) by {
        if k != i {
            assert(s1[k].short_code != s1[i].short_code);
        }
    }
}

/// Two successful allocations of different URLs, one after the other on the
/// same store, return different codes.
pub proof fn lemma_distinct_urls_get_distinct_codes(
    store0: LinkStore,
    policy: AllocPolicy,
    u1: Seq<char>,
    s1: Seq<LinkModel>,
    r1: Result<(String, i64), AllocError>,
    u2: Seq<char>,
    s2: Seq<LinkModel>,
    r2: Result<(String, i64), AllocError>,
)
    requires
        store0.wf(),
        allocated(store0@, u1, policy, s1, r1),
        allocated(s1, u2, policy, s2, r2),
        r1 is Ok,
        r2 is Ok,
        u1 != u2,
    ensures
        r1->Ok_0.0@ != r2->Ok_0.0@,
{
    let s0 = store0@;
    store0.lemma_links_valid();
    lemma_allocation_keeps_links_valid(s0, u1, policy, s1, r1);
    lemma_allocation_keeps_links_valid(s1, u2, policy, s2, r2);
    lemma_allocation_records_link(s0, u1, policy, s1, r1);
    lemma_allocation_records_link(s1, u2, policy, s2, r2);
    let i1 = choose|i: int|
        0 <= i < s1.len() && (#[trigger] s1[i]).original_url == u1 && s1[i].short_code
            == r1->Ok_0.0@ && s1[i].created_at == r1->Ok_0.1;
    let i2 = choose|i: int|
        0 <= i < s2.len() && (#[trigger] s2[i]).original_url == u2 && s2[i].short_code
            == r2->Ok_0.0@ && s2[i].created_at == r2->Ok_0.1;
    assert(s2[i1] == s1[i1]);
    assert(s2[i1].short_code != s2[i2].short_code);
}

/// A newly minted code is none of the codes the store already held, so every
/// candidate that collided with an existing record was passed over.
pub proof fn lemma_new_code_avoids_taken_codes(
    s0: Seq<LinkModel>,
    url: Seq<char>,
    policy: AllocPolicy,
    s1: Seq<LinkModel>,
    r: Result<(String, i64), AllocError>,
)
    requires
        allocated(s0, url, policy, s1, r),
        !has_url(s0, url),
        r is Ok,
    ensures
        forall|i: int| 0 <= i < s0.len() ==> (#[trigger] s0[i]).short_code != r->Ok_0.0@,
        s1.len() == s0.len() + 1,
{
    assert forall|i: int| 0 <= i < s0.len() implies (#[trigger] s0[i]).short_code
        != r->Ok_0.0@ by {
        if s0[i].short_code == r->Ok_0.0@ {
            assert(has_code(s0, r->Ok_0.0@));
        }
    }
}

} // verus!
