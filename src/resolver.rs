//! Resolution of a short code to the link it stands for.
use crate::clock::is_expired;
use crate::store::{has_code, LinkModel, LinkRecord, LinkStore, StoreError};
use vstd::prelude::*;

verus! {

/// Where a code leads.
#[derive(Debug)]
pub struct ResolvedLink {
    pub original_url: String,
    pub created_at: i64,
}

/// Why a code does not resolve.
#[derive(Clone, Copy, Debug, PartialEq, Eq, Structural)]
pub enum ResolveError {
    /// No record holds the code, or its record is past the validity window.
    NotFound,
    /// The store could not serve the lookup.
    StorageUnavailable,
}

/// `r` is what resolving `code` against the records `s` gives, with no
/// validity window: the record that holds the code, or `NotFound`.
pub open spec fn resolved_as(
    s: Seq<LinkModel>,
    code: Seq<char>,
    r: Result<ResolvedLink, ResolveError>,
) -> bool {
    match r {
        Ok(link) => exists|i: int|
            0 <= i < s.len() && (#[trigger] s[i]).short_code == code && s[i].original_url
                == link.original_url@ && s[i].created_at == link.created_at,
        Err(ResolveError::NotFound) => !has_code(s, code),
        Err(ResolveError::StorageUnavailable) => false,
    }
}

/// Decides the outcome of a resolution from the store's answer to the lookup of
/// the code. With `window` set, a record older than `window` seconds at `now`
/// counts as absent; the record itself is left as it is.
pub fn resolution_of(
    lookup: Result<Option<LinkRecord>, StoreError>,
    now: i64,
    window: Option<i64>,
) -> (r: Result<ResolvedLink, ResolveError>)
    ensures
        match lookup {
            Err(_) => r == Err::<ResolvedLink, ResolveError>(ResolveError::StorageUnavailable),
            Ok(None) => r == Err::<ResolvedLink, ResolveError>(ResolveError::NotFound),
            Ok(Some(rec)) => if window matches Some(w) && now - rec.created_at > w {
                r == Err::<ResolvedLink, ResolveError>(ResolveError::NotFound)
            } else {
                r matches Ok(link) && link.original_url == rec.original_url && link.created_at
                    == rec.created_at
            },
        },
{
    match lookup {
        Err(_) => Err(ResolveError::StorageUnavailable),
        Ok(None) => Err(ResolveError::NotFound),
        Ok(Some(rec)) => {
            let expired = match window {
                Some(w) => is_expired(rec.created_at, now, w),
                None => false,
            };
            if expired {
                Err(ResolveError::NotFound)
            } else {
                Ok(ResolvedLink { original_url: rec.original_url, created_at: rec.created_at })
            }
        },
    }
}

/// Resolves `short_code` against `store`, with no validity window.
pub fn resolve(store: &LinkStore, short_code: &String) -> (r: Result<ResolvedLink, ResolveError>)
    requires
        store.wf(),
    ensures
        resolved_as(store@, short_code@, r),
        r matches Ok(link) ==> forall|i: int|
            0 <= i < store@.len() && (#[trigger] store@[i]).short_code == short_code@ ==> store@[i].original_url
                == link.original_url@ && store@[i].created_at == link.created_at,
{
    let found = store.find_by_short_code(short_code);
    proof {
        store.lemma_links_valid();
        if found is Some {
            let k = choose|k: int|
                0 <= k < store@.len() && #[trigger] store@[k] == found->Some_0@
                    && found->Some_0.short_code@ == short_code@;
            assert forall|i: int|
                0 <= i < store@.len() && (#[trigger] store@[i]).short_code
                    == short_code@ implies store@[i] == store@[k] by {
                if i != k {
                    assert(store@[i].short_code != store@[k].short_code);
                }
            }
        }
    }
    resolution_of(Ok(found), 0, None)
}

} // verus!
