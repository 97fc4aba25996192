use vstd::prelude::*;
use crate::models::ShortUrlModel;

verus! {

/// Why the store refused an insert.
#[derive(Clone, Copy, Debug, PartialEq, Eq, Structural)]
pub enum StoreError {
    /// A record with this short code exists already.
    DuplicateShortCode,
    /// No identifier is left to assign.
    IdsExhausted,
}

/// Some record holds `code` as its short code.
pub open spec fn holds_code(recs: Seq<ShortUrlModel>, code: Seq<char>) -> bool {
    exists|i: int| 0 <= i < recs.len() && (#[trigger] recs[i]).short_url@ == code
}

/// No two records share a short code.
pub open spec fn codes_unique(recs: Seq<ShortUrlModel>) -> bool {
    forall|i: int, j: int|
        0 <= i < j < recs.len() ==> (#[trigger] recs[i]).short_url@ != (#[trigger] recs[j]).short_url@
}

/// The URL stored under `code`: that of the latest record holding it.
pub open spec fn find_url(recs: Seq<ShortUrlModel>, code: Seq<char>) -> Option<Seq<char>>
    decreases recs.len(),
{
    if recs.len() == 0 {
        None
    } else if recs.last().short_url@ == code {
        Some(recs.last().original_url@)
    } else {
        find_url(recs.drop_last(), code)
    }
}

/// A code that no record holds is not found.
pub proof fn lemma_find_absent(recs: Seq<ShortUrlModel>, code: Seq<char>)
    requires
        !holds_code(recs, code),
    ensures
        find_url(recs, code) is None,
    decreases recs.len(),
{
    if recs.len() > 0 {
        assert(recs.last() == recs[recs.len() - 1]);
        assert forall|i: int| 0 <= i < recs.drop_last().len() implies
            (#[trigger] recs.drop_last()[i]).short_url@ != code by {
            assert(recs.drop_last()[i] == recs[i]);
        }
        lemma_find_absent(recs.drop_last(), code);
    }
}

/// Where short codes are unique, a code is found with the URL of the one record
/// that holds it.
pub proof fn lemma_find_unique(recs: Seq<ShortUrlModel>, k: int)
    requires
        codes_unique(recs),
        0 <= k < recs.len(),
    ensures
        find_url(recs, recs[k].short_url@) == Some(recs[k].original_url@),
    decreases recs.len(),
{
    let last = recs.len() - 1;
    assert(recs.last() == recs[last]);
    if k < last {
        assert(recs[k].short_url@ != recs[last].short_url@);
        let rest = recs.drop_last();
        assert(rest[k] == recs[k]);
        assert forall|i: int, j: int| 0 <= i < j < rest.len() implies
            (#[trigger] rest[i]).short_url@ != (#[trigger] rest[j]).short_url@ by {
            assert(rest[i] == recs[i] && rest[j] == recs[j]);
        }
        lemma_find_unique(rest, k);
    }
}

/// After a record is added, its code leads to its URL.
pub proof fn lemma_find_after_insert(recs: Seq<ShortUrlModel>, rec: ShortUrlModel)
    ensures
        find_url(recs.push(rec), rec.short_url@) == Some(rec.original_url@),
{
    assert(recs.push(rec).last() == rec);
}

/// An in-memory store of short URLs, with the rules of the relational table
/// behind the service: unique short codes, store-assigned increasing ids, exact
/// lookups in which a miss is no error. The server itself keeps its records in
/// Postgres through its own queries and does not run this type; what is proved
/// here of inserts and lookups is proved of this model.
pub struct UrlStore {
    records: Vec<ShortUrlModel>,
    next_id: i32,
}

impl UrlStore {
    /// The records, in order of insertion.
    pub closed spec fn view(&self) -> Seq<ShortUrlModel> {
        self.records@
    }

    /// The identifier the next record will get.
    pub closed spec fn next_id(&self) -> i32 {
        self.next_id
    }

    /// Short codes are unique; identifiers increase with insertion and stay
    /// below the next one.
    pub closed spec fn wf(&self) -> bool {
        &&& codes_unique(self.records@)
        &&& 1 <= self.next_id
        &&& forall|i: int, j: int| 0 <= i < j < self.records@.len()
            ==> (#[trigger] self.records@[i]).id < (#[trigger] self.records@[j]).id
        &&& forall|i: int| 0 <= i < self.records@.len() ==> (#[trigger] self.records@[i]).id < self.next_id
    }

    /// What well-formedness gives a caller: unique short codes, ids increasing
    /// with insertion, all below the next id.
    pub proof fn lemma_wf_facts(&self)
        requires
            self.wf(),
        ensures
            codes_unique(self@),
            1 <= self.next_id(),
            forall|i: int, j: int| 0 <= i < j < self@.len() ==> (#[trigger] self@[i]).id < (#[trigger] self@[j]).id,
            forall|i: int| 0 <= i < self@.len() ==> (#[trigger] self@[i]).id < self.next_id(),
    {
    }

    /// An empty store.
    pub fn new() -> (s: Self)
        ensures
            s.wf(),
            s@ == Seq::<ShortUrlModel>::empty(),
            s.next_id() == 1,
    {
        UrlStore { records: Vec::new(), next_id: 1 }
    }

    /// Number of records.
    pub fn len(&self) -> (r: usize)
        ensures
            r == self@.len(),
    {
        self.records.len()
    }

    fn position(&self, code: &String) -> (r: Option<usize>)
        ensures
            r matches Some(k) ==> k < self@.len() && self@[k as int].short_url@ == code@,
            r is None ==> !holds_code(self@, code@),
    {
        let mut i: usize = 0;
        while i < self.records.len()
            invariant
                i <= self.records@.len(),
                forall|j: int| 0 <= j < i ==> (#[trigger] self.records@[j]).short_url@ != code@,
            decreases self.records@.len() - i,
        {
            if self.records[i].short_url == *code {
                return Some(i);
            }
            i = i + 1;
        }
        None
    }

    /// Adds a record for `short_url`, owned by `user_id` and stamped `created_on`.
    /// Fails if the code is taken or no identifier is left.
    pub fn insert_url(&mut self, original_url: &str, short_url: &str, user_id: u128, created_on: i64) -> (r: Result<(), StoreError>)
        requires
            old(self).wf(),
        ensures
            final(self).wf(),
            holds_code(old(self)@, short_url@) ==> r == Err::<(), StoreError>(StoreError::DuplicateShortCode),
            !holds_code(old(self)@, short_url@) && old(self).next_id() == i32::MAX
                ==> r == Err::<(), StoreError>(StoreError::IdsExhausted),
            r is Err ==> final(self)@ == old(self)@ && final(self).next_id() == old(self).next_id(),
            r is Ok ==> {
                &&& final(self)@.len() == old(self)@.len() + 1
                &&& final(self)@.drop_last() == old(self)@
                &&& final(self)@.last().id == old(self).next_id()
                &&& final(self)@.last().short_url@ == short_url@
                &&& final(self)@.last().original_url@ == original_url@
                &&& final(self)@.last().created_on == created_on
                &&& final(self)@.last().user_id == user_id
                &&& final(self).next_id() == old(self).next_id() + 1
                &&& forall|i: int| 0 <= i < old(self)@.len() ==> (#[trigger] old(self)@[i]).id < final(self)@.last().id
            },
            r is Ok <==> !holds_code(old(self)@, short_url@) && old(self).next_id() < i32::MAX,
    {
        let code = short_url.to_owned();
        if let Some(_) = self.position(&code) {
            return Err(StoreError::DuplicateShortCode);
        }
        if self.next_id == i32::MAX {
            return Err(StoreError::IdsExhausted);
        }
        let rec = ShortUrlModel {
            id: self.next_id,
            short_url: code,
            original_url: original_url.to_owned(),
            created_on,
            user_id,
        };
        let ghost before = self.records@;
        self.records.push(rec);
        self.next_id = self.next_id + 1;
        proof {
            assert(self.records@.drop_last() =~= before);
            assert forall|i: int, j: int| 0 <= i < j < self.records@.len() implies
                (#[trigger] self.records@[i]).short_url@ != (#[trigger] self.records@[j]).short_url@ by {
                if j == self.records@.len() - 1 {
                    assert(self.records@[i] == before[i]);
                }
            }
        }
        Ok(())
    }

    /// The URL stored under `short_url`, if any. A miss is no error.
    pub fn get_original_url(&self, short_url: &str) -> (r: Option<String>)
        requires
            self.wf(),
        ensures
            r is None <==> find_url(self@, short_url@) is None,
            r matches Some(u) ==> find_url(self@, short_url@) == Some(u@),
    {
        let code = short_url.to_owned();
        match self.position(&code) {
            Some(k) => {
                proof {
                    lemma_find_unique(self@, k as int);
                }
                Some(self.records[k].original_url.clone())
            },
            None => {
                proof {
                    lemma_find_absent(self@, short_url@);
                }
                None
            },
        }
    }

    /// Removes every record. Identifiers are not reused.
    pub fn delete_short_urls(&mut self)
        requires
            old(self).wf(),
        ensures
            final(self).wf(),
            final(self)@ == Seq::<ShortUrlModel>::empty(),
            final(self).next_id() == old(self).next_id(),
    {
        self.records = Vec::new();
    }
}

} // verus!
