//! The credential store: one record per username.
//!
//! The store models the `users` table. Its mathematical content is
//! [`table_of`], a map from username to stored digest, and its invariant is
//! that usernames are unique — the correctness-bearing mechanism behind
//! duplicate rejection, stated in [`CredentialStore::wf`]. Insertion never
//! overwrites: a taken username is refused with [`DuplicateError`].

use vstd::prelude::*;

use crate::errors::DuplicateError;
use crate::errors::NotFoundError;

verus! {

/// One row of the `users` table: a username and the digest stored for it.
pub struct Record {
    pub username: String,
    pub password_hash: String,
}

/// No two records share a username.
pub open spec fn unique_usernames(s: Seq<Record>) -> bool {
    forall|i: int, j: int| 0 <= i < j < s.len() ==> s[i].username@ != s[j].username@
}

/// The map a sequence of records denotes: each username to the digest of its
/// latest record.
pub open spec fn table_of(s: Seq<Record>) -> Map<Seq<char>, Seq<char>>
    decreases s.len(),
{
    if s.len() == 0 {
        Map::empty()
    } else {
        table_of(s.drop_last()).insert(s.last().username@, s.last().password_hash@)
    }
}

/// How many records carry the given username.
pub open spec fn count_for(s: Seq<Record>, username: Seq<char>) -> nat
    decreases s.len(),
{
    if s.len() == 0 {
        0
    } else {
        count_for(s.drop_last(), username) + if s.last().username@ == username {
            1nat
        } else {
            0nat
        }
    }
}

/// What an insert of `username` returns: refused exactly when the username is
/// already present.
pub open spec fn insert_result(s: Seq<Record>, username: Seq<char>) -> Result<
    (),
    DuplicateError,
> {
    if table_of(s).contains_key(username) {
        Err(DuplicateError)
    } else {
        Ok(())
    }
}

/// The records after an insert of `r`: unchanged on a duplicate, extended by
/// `r` otherwise.
pub open spec fn insert_next(s: Seq<Record>, r: Record) -> Seq<Record> {
    if table_of(s).contains_key(r.username@) {
        s
    } else {
        s.push(r)
    }
}

/// A username is in the table exactly when some record carries it.
pub proof fn lemma_table_contains(s: Seq<Record>, username: Seq<char>)
    ensures
        table_of(s).contains_key(username) <==> exists|i: int|
            0 <= i < s.len() && s[i].username@ == username,
    decreases s.len(),
{
    if s.len() > 0 {
        lemma_table_contains(s.drop_last(), username);
        if s.last().username@ == username {
            assert(s[s.len() - 1].username@ == username);
        } else if exists|i: int| 0 <= i < s.len() && s[i].username@ == username {
            let i = choose|i: int| 0 <= i < s.len() && s[i].username@ == username;
            assert(s.drop_last()[i] == s[i]);
        }
    }
}

/// With unique usernames, the table sends each record's username to that
/// record's digest.
pub proof fn lemma_table_at(s: Seq<Record>, i: int)
    requires
        unique_usernames(s),
        0 <= i < s.len(),
    ensures
        table_of(s).contains_key(s[i].username@),
        table_of(s)[s[i].username@] == s[i].password_hash@,
    decreases s.len(),
{
    if i == s.len() - 1 {
    } else {
        lemma_table_at(s.drop_last(), i);
        assert(s.drop_last()[i] == s[i]);
    }
}

/// With unique usernames, a username in the table is carried by exactly one
/// record, and one not in the table by none.
pub proof fn lemma_count_unique(s: Seq<Record>, username: Seq<char>)
    requires
        unique_usernames(s),
    ensures
        count_for(s, username) == if table_of(s).contains_key(username) {
            1nat
        } else {
            0nat
        },
    decreases s.len(),
{
    lemma_table_contains(s, username);
    if s.len() > 0 {
        assert(unique_usernames(s.drop_last())) by {
            assert(forall|i: int, j: int|
                0 <= i < j < s.len() - 1 ==> s.drop_last()[i] == s[i] && s.drop_last()[j] == s[j]);
        }
        lemma_count_unique(s.drop_last(), username);
        lemma_table_contains(s.drop_last(), username);
        if s.last().username@ == username {
            assert(!table_of(s.drop_last()).contains_key(username)) by {
                if exists|i: int| 0 <= i < s.len() - 1 && s.drop_last()[i].username@ == username {
                    let i = choose|i: int|
                        0 <= i < s.len() - 1 && s.drop_last()[i].username@ == username;
                    assert(s[i].username@ == s[s.len() - 1].username@);
                }
            }
        } else {
            if exists|i: int| 0 <= i < s.len() && s[i].username@ == username {
                let i = choose|i: int| 0 <= i < s.len() && s[i].username@ == username;
                assert(s.drop_last()[i] == s[i]);
            }
        }
    }
}

/// Registering the same username twice: the first insert succeeds, the second
/// is refused as a duplicate, the records are exactly those after the first
/// insert, and the store then holds exactly one record for that username.
pub proof fn lemma_register_twice(s: Seq<Record>, r1: Record, r2: Record)
    requires
        unique_usernames(s),
        !table_of(s).contains_key(r1.username@),
        r2.username@ == r1.username@,
    ensures
        insert_result(s, r1.username@) == Ok::<(), DuplicateError>(()),
        insert_result(insert_next(s, r1), r2.username@) == Err::<(), DuplicateError>(
            DuplicateError,
        ),
        insert_next(insert_next(s, r1), r2) == insert_next(s, r1),
        count_for(insert_next(insert_next(s, r1), r2), r1.username@) == 1,
{
    let s1 = s.push(r1);
    assert(s1.drop_last() =~= s);
    lemma_unique_after_push(s, r1);
    lemma_count_unique(s1, r1.username@);
}

/// Pushing a record whose username is absent keeps usernames unique.
pub proof fn lemma_unique_after_push(s: Seq<Record>, r: Record)
    requires
        unique_usernames(s),
        !table_of(s).contains_key(r.username@),
    ensures
        unique_usernames(s.push(r)),
        table_of(s.push(r)) == table_of(s).insert(r.username@, r.password_hash@),
{
    lemma_table_contains(s, r.username@);
    assert(forall|i: int| 0 <= i < s.len() ==> s.push(r)[i] == s[i]);
    assert(s.push(r).drop_last() =~= s);
}

/// Two registrations of the same username race: whichever order the store
/// serializes them in, exactly one succeeds and the other is refused as a
/// duplicate — never two successes.
pub proof fn lemma_racing_registrations(s: Seq<Record>, r1: Record, r2: Record)
    requires
        unique_usernames(s),
        !table_of(s).contains_key(r1.username@),
        r2.username@ == r1.username@,
    ensures
        insert_result(s, r1.username@) is Ok,
        insert_result(insert_next(s, r1), r2.username@) is Err,
        insert_result(s, r2.username@) is Ok,
        insert_result(insert_next(s, r2), r1.username@) is Err,
{
    lemma_register_twice(s, r1, r2);
    lemma_register_twice(s, r2, r1);
}

/// The in-memory credential store: the `users` table held as a vector of
/// records, with usernames unique.
pub struct CredentialStore {
    records: Vec<Record>,
}

impl CredentialStore {
    /// The records, oldest first.
    pub closed spec fn records(&self) -> Seq<Record> {
        self.records@
    }

    /// The store's invariant: no two records share a username.
    pub open spec fn wf(&self) -> bool {
        unique_usernames(self.records())
    }

    /// The map the store denotes: username to stored digest.
    pub open spec fn table(&self) -> Map<Seq<char>, Seq<char>> {
        table_of(self.records())
    }

    /// An empty store.
    pub fn new() -> (s: Self)
        ensures
            s.wf(),
            s.records() =~= Seq::<Record>::empty(),
            s.table() =~= Map::<Seq<char>, Seq<char>>::empty(),
    {
        CredentialStore { records: Vec::new() }
    }

    /// Whether a record for `username` exists.
    pub fn contains_username(&self, username: &String) -> (r: bool)
        ensures
            r == self.table().contains_key(username@),
    {
        let n = self.records.len();
        let mut i: usize = 0;
        while i < n
            invariant
                n == self.records().len(),
                0 <= i <= n,
                forall|k: int| 0 <= k < i ==> self.records()[k].username@ != username@,
            decreases n - i,
        {
            if self.records[i].username == *username {
                proof {
                    lemma_table_contains(self.records(), username@);
                    assert(0 <= i < self.records().len() && self.records()[i as int].username@
                        == username@);
                }
                return true;
            }
            i += 1;
        }
        proof {
            lemma_table_contains(self.records(), username@);
        }
        false
    }

    /// Write a new record, refusing to overwrite: succeeds exactly when the
    /// username is absent, and otherwise leaves the store unchanged and
    /// returns [`DuplicateError`].
    pub fn insert(&mut self, username: String, password_hash: String) -> (r: Result<
        (),
        DuplicateError,
    >)
        requires
            old(self).wf(),
        ensures
            final(self).wf(),
            r == insert_result(old(self).records(), username@),
            final(self).records() == insert_next(
                old(self).records(),
                (Record { username, password_hash }),
            ),
            r is Ok ==> final(self).table() == old(self).table().insert(
                username@,
                password_hash@,
            ),
            r is Err ==> final(self).table() == old(self).table(),
    {
        if self.contains_username(&username) {
            Err(DuplicateError)
        } else {
            proof {
                lemma_unique_after_push(
                    self.records(),
                    Record { username, password_hash },
                );
            }
            self.records.push(Record { username, password_hash });
            Ok(())
        }
    }

    /// Look up the digest stored for `username`: returns it exactly when a
    /// record exists, and [`NotFoundError`] otherwise.
    pub fn find_password_hash(&self, username: &String) -> (r: Result<String, NotFoundError>)
        requires
            self.wf(),
        ensures
            match r {
                Ok(h) => self.table().contains_key(username@) && h@ == self.table()[username@],
                Err(e) => !self.table().contains_key(username@) && e == NotFoundError,
            },
    {
        let n = self.records.len();
        let mut i: usize = 0;
        while i < n
            invariant
                self.wf(),
                n == self.records().len(),
                0 <= i <= n,
                forall|k: int| 0 <= k < i ==> self.records()[k].username@ != username@,
            decreases n - i,
        {
            if self.records[i].username == *username {
                proof {
                    lemma_table_at(self.records(), i as int);
                }
                return Ok(self.records[i].password_hash.clone());
            }
            i += 1;
        }
        proof {
            lemma_table_contains(self.records(), username@);
        }
        Err(NotFoundError)
    }

    /// How many records carry `username` — with the invariant, never more
    /// than one.
    pub fn record_count(&self, username: &String) -> (n: usize)
        requires
            self.wf(),
        ensures
            n == count_for(self.records(), username@),
            n <= 1,
    {
        let len = self.records.len();
        let mut i: usize = 0;
        let mut found: usize = 0;
        while i < len
            invariant
                len == self.records().len(),
                0 <= i <= len,
                found == count_for(self.records().take(i as int), username@),
                found <= i,
            decreases len - i,
        {
            proof {
                assert(self.records().take(i as int + 1).drop_last() =~= self.records().take(
                    i as int,
                ));
                assert(self.records().take(i as int + 1).last() == self.records()[i as int]);
            }
            if self.records[i].username == *username {
                found += 1;
            }
            i += 1;
        }
        proof {
            assert(self.records().take(len as int) =~= self.records());
            lemma_count_unique(self.records(), username@);
        }
        found
    }
}

} // verus!
