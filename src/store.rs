//! The link store: records mapping a short code to its original URL, with the
//! uniqueness of short codes enforced by the store itself on every insert.
use vstd::prelude::*;

verus! {

/// What a stored link is, as a mathematical value.
pub struct LinkModel {
    pub id: u64,
    pub short_code: Seq<char>,
    pub original_url: Seq<char>,
    pub created_at: i64,
}

/// One persisted link. `created_at` is in whole seconds since the Unix epoch (UTC).
#[derive(Debug)]
pub struct LinkRecord {
    pub id: u64,
    pub short_code: String,
    pub original_url: String,
    pub created_at: i64,
}

impl Clone for LinkRecord {
    fn clone(&self) -> (r: LinkRecord)
        ensures
            r == *self,
    {
        LinkRecord {
            id: self.id,
            short_code: self.short_code.clone(),
            original_url: self.original_url.clone(),
            created_at: self.created_at,
        }
    }
}

impl View for LinkRecord {
    type V = LinkModel;

    open spec fn view(&self) -> LinkModel {
        LinkModel {
            id: self.id,
            short_code: self.short_code@,
            original_url: self.original_url@,
            created_at: self.created_at,
        }
    }
}

/// Why the store refused an insert.
#[derive(Clone, Copy, Debug, PartialEq, Eq, Structural)]
pub enum StoreError {
    /// The short code is already held by another record.
    DuplicateCode,
    /// The original URL already has a record (and so a code).
    DuplicateUrl,
    /// The store cannot take the write.
    StorageUnavailable,
}

/// No two records share a short code.
pub open spec fn codes_distinct(s: Seq<LinkModel>) -> bool {
    forall|i: int, j: int|
        0 <= i < s.len() && 0 <= j < s.len() && i != j ==> #[trigger] s[i].short_code
            != #[trigger] s[j].short_code
}

/// No two records share an original URL.
pub open spec fn urls_distinct(s: Seq<LinkModel>) -> bool {
    forall|i: int, j: int|
        0 <= i < s.len() && 0 <= j < s.len() && i != j ==> #[trigger] s[i].original_url
            != #[trigger] s[j].original_url
}

/// The data model's invariants: a code names one link and a URL has one code.
pub open spec fn valid_links(s: Seq<LinkModel>) -> bool {
    codes_distinct(s) && urls_distinct(s)
}

/// Some record holds `code`.
pub open spec fn has_code(s: Seq<LinkModel>, code: Seq<char>) -> bool {
    exists|i: int| 0 <= i < s.len() && #[trigger] s[i].short_code == code
}

/// Some record holds `url`.
pub open spec fn has_url(s: Seq<LinkModel>, url: Seq<char>) -> bool {
    exists|i: int| 0 <= i < s.len() && #[trigger] s[i].original_url == url
}

/// `i` is the first record that holds `url`.
pub open spec fn first_with_url(s: Seq<LinkModel>, url: Seq<char>, i: int) -> bool {
    &&& 0 <= i < s.len()
    &&& s[i].original_url == url
    &&& forall|j: int| 0 <= j < i ==> #[trigger] s[j].original_url != url
}

/// The record that an insert of `(code, url, created_at)` adds to `s`.
pub open spec fn new_link(
    s: Seq<LinkModel>,
    code: Seq<char>,
    url: Seq<char>,
    created_at: i64,
) -> LinkModel {
    LinkModel { id: (s.len() + 1) as u64, short_code: code, original_url: url, created_at }
}

/// An in-memory link store. Records are kept in insertion order and the
/// surrogate id of a record is its position plus one.
pub struct LinkStore {
    records: Vec<LinkRecord>,
    next_id: u64,
}

impl View for LinkStore {
    type V = Seq<LinkModel>;

    closed spec fn view(&self) -> Seq<LinkModel> {
        self.records@.map_values(|r: LinkRecord| r@)
    }
}

impl LinkStore {
    pub closed spec fn wf(&self) -> bool {
        &&& self.next_id as int == self.records@.len() + 1
        &&& forall|i: int| 0 <= i < self@.len() ==> (#[trigger] self@[i]).id as int == i + 1
        &&& valid_links(self@)
    }

    /// A well-formed store keeps the data model's invariants: no two records
    /// share a short code or an original URL. It is full exactly when its
    /// surrogate ids are used up.
    pub proof fn lemma_links_valid(&self)
        requires
            self.wf(),
        ensures
            valid_links(self@),
            self.is_full() <==> self@.len() + 1 == u64::MAX,
    {
    }

    /// The store has used up its surrogate ids and takes no more records.
    pub closed spec fn is_full(&self) -> bool {
        self.next_id == u64::MAX
    }

    pub fn new() -> (r: LinkStore)
        ensures
            r.wf(),
            r@.len() == 0,
            !r.is_full(),
    {
        LinkStore { records: Vec::new(), next_id: 1 }
    }

    pub fn len(&self) -> (r: usize)
        ensures
            r == self@.len(),
    {
        self.records.len()
    }

    /// The first record whose original URL is `url`, if any.
    pub fn find_by_original_url(&self, url: &String) -> (r: Option<LinkRecord>)
        ensures
            r is None <==> !has_url(self@, url@),
            r matches Some(rec) ==> exists|i: int|
                first_with_url(self@, url@, i) && #[trigger] self@[i] == rec@,
    {
        let mut k: usize = 0;
        while k < self.records.len()
            invariant
                0 <= k <= self.records@.len(),
                forall|j: int| 0 <= j < k ==> #[trigger] self@[j].original_url != url@,
            decreases self.records@.len() - k,
        {
            if self.records[k].original_url == *url {
                assert(first_with_url(self@, url@, k as int));
                return Some(self.records[k].clone());
            }
            k = k + 1;
        }
        None
    }

    /// The record that holds `code`, if any.
    pub fn find_by_short_code(&self, code: &String) -> (r: Option<LinkRecord>)
        requires
            self.wf(),
        ensures
            r is None <==> !has_code(self@, code@),
            r matches Some(rec) ==> exists|i: int|
                0 <= i < self@.len() && #[trigger] self@[i] == rec@ && rec.short_code@ == code@,
    {
        let mut k: usize = 0;
        while k < self.records.len()
            invariant
                0 <= k <= self.records@.len(),
                forall|j: int| 0 <= j < k ==> #[trigger] self@[j].short_code != code@,
            decreases self.records@.len() - k,
        {
            if self.records[k].short_code == *code {
                assert(self@[k as int] == self.records@[k as int]@);
                assert(self@[k as int].short_code == code@);
                return Some(self.records[k].clone());
            }
            k = k + 1;
        }
        None
    }

    /// Adds a record, unless `code` is taken (`DuplicateCode`), the URL already
    /// has a record (`DuplicateUrl`) or the store is full (`StorageUnavailable`).
    /// A refused insert changes nothing.
    pub fn insert(&mut self, short_code: String, original_url: String, created_at: i64) -> (r:
        Result<LinkRecord, StoreError>)
        requires
            old(self).wf(),
        ensures
            final(self).wf(),
            match r {
                Ok(rec) => {
                    &&& !has_code(old(self)@, short_code@)
                    &&& !has_url(old(self)@, original_url@)
                    &&& !old(self).is_full()
                    &&& rec@ == new_link(old(self)@, short_code@, original_url@, created_at)
                    &&& final(self)@ == old(self)@.push(rec@)
                },
                Err(StoreError::DuplicateCode) => {
                    &&& has_code(old(self)@, short_code@)
                    &&& final(self)@ == old(self)@
                    &&& final(self).is_full() == old(self).is_full()
                },
                Err(StoreError::DuplicateUrl) => {
                    &&& !has_code(old(self)@, short_code@)
                    &&& has_url(old(self)@, original_url@)
                    &&& final(self)@ == old(self)@
                    &&& final(self).is_full() == old(self).is_full()
                },
                Err(StoreError::StorageUnavailable) => {
                    &&& !has_code(old(self)@, short_code@)
                    &&& !has_url(old(self)@, original_url@)
                    &&& old(self).is_full()
                    &&& final(self)@ == old(self)@
                    &&& final(self).is_full()
                },
            },
    {
        match self.find_by_short_code(&short_code) {
            Some(_) => {
                return Err(StoreError::DuplicateCode);
            },
            None => {},
        }
        match self.find_by_original_url(&original_url) {
            Some(_) => {
                return Err(StoreError::DuplicateUrl);
            },
            None => {},
        }
        if self.next_id == u64::MAX {
            return Err(StoreError::StorageUnavailable);
        }
        let rec = LinkRecord { id: self.next_id, short_code, original_url, created_at };
        let ghost before = self@;
        self.records.push(rec.clone());
        self.next_id = self.next_id + 1;
        assert(self@ =~= before.push(rec@));
        Ok(rec)
    }
}

} // verus!
