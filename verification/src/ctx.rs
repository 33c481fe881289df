//! The session with the module database: acquiring it, enumerating the
//! loaded modules, and resolving a single module by name or by path.

use vstd::prelude::*;

use crate::db::Database;
use crate::db::ModuleRecord;
use crate::errors::Errno;
use crate::errors::Error;
use crate::modules::Module;
use crate::modules::ModuleIterator;
use crate::text::contains_nul;
use crate::text::has_nul;
use crate::text::str_eq;

verus! {

/// The lookup keys of a list of records: their names, or their on-disk
/// paths.
pub open spec fn record_keys(records: Seq<ModuleRecord>, by_path: bool) -> Seq<Seq<char>> {
    Seq::new(
        records.len(),
        |i: int|
            if by_path {
                records[i].path@
            } else {
                records[i].name@
            },
    )
}

/// The first position at which `key` occurs among `keys`, if any.
pub open spec fn spec_find(keys: Seq<Seq<char>>, key: Seq<char>) -> Option<int>
    decreases keys.len(),
{
    if keys.len() == 0 {
        None
    } else if keys[0] == key {
        Some(0)
    } else {
        match spec_find(keys.skip(1), key) {
            Some(i) => Some(i + 1),
            None => None,
        }
    }
}

/// What `spec_find` returns is the first match: a position holding `key`
/// with no earlier match, or nothing exactly when no position holds `key`.
pub proof fn lemma_find_characterization(keys: Seq<Seq<char>>, key: Seq<char>)
    ensures
        match spec_find(keys, key) {
            Some(i) => {
                &&& 0 <= i < keys.len()
                &&& keys[i] == key
                &&& forall|j: int| 0 <= j < i ==> keys[j] != key
            },
            None => forall|j: int| 0 <= j < keys.len() ==> keys[j] != key,
        },
    decreases keys.len(),
{
    if keys.len() > 0 && keys[0] != key {
        lemma_find_characterization(keys.skip(1), key);
        let rest = keys.skip(1);
        match spec_find(rest, key) {
            Some(i) => {
                assert(rest[i] == keys[i + 1]);
                assert forall|j: int| 0 <= j < i + 1 implies keys[j] != key by {
                    if j > 0 {
                        assert(rest[j - 1] == keys[j]);
                    }
                }
            },
            None => {
                assert forall|j: int| 0 <= j < keys.len() implies keys[j] != key by {
                    if j > 0 {
                        assert(rest[j - 1] == keys[j]);
                    }
                }
            },
        }
    }
}

/// The outcome of resolving `key` against the given lookup keys: an
/// embedded NUL is rejected before anything reaches the native layer;
/// otherwise the first matching record is returned, or the database's
/// configured lookup status when there is none.
pub open spec fn spec_lookup_result(db: Database, keys: Seq<Seq<char>>, key: Seq<char>) -> Result<
    int,
    Error,
> {
    if has_nul(key) {
        Err(Error::Nul)
    } else {
        match spec_find(keys, key) {
            Some(i) => Ok(i),
            None => Err(Error::Errno(Errno(db.lookup_status))),
        }
    }
}

/// A session with the module database; every other operation is issued
/// through it, and it owns the database snapshot for as long as it lives.
#[derive(Debug)]
pub struct Context {
    /// The database this session is connected to.
    pub db: Database,
}

impl Context {
    /// The session's database is well-formed.
    pub open spec fn wf(&self) -> bool {
        self.db.wf()
    }

    /// Acquire a session with the given database. Fails with a
    /// construction error, with no further diagnostic, when the database
    /// reports that no session handle can be had or when its records are
    /// not well-formed.
    pub fn new(db: Database) -> (r: Result<Context, Error>)
        ensures
            match r {
                Ok(c) => {
                    &&& db.session_ok
                    &&& db.wf()
                    &&& c.db == db
                    &&& c.wf()
                },
                Err(e) => {
                    &&& e == Error::Construction
                    &&& !(db.session_ok && db.wf())
                },
            },
    {
        if db.session_ok && db.check() {
            Ok(Context { db })
        } else {
            Err(Error::Construction)
        }
    }

    /// Enumerate the currently loaded modules, in list order. Fails with
    /// an error carrying the database's configured list status when the
    /// query cannot build the list; otherwise the iterator covers every
    /// record exactly once, first to last.
    pub fn modules_loaded(&self) -> (r: Result<ModuleIterator<'_>, Error>)
        requires
            self.wf(),
        ensures
            match r {
                Ok(it) => {
                    &&& self.db.list_status == 0
                    &&& it.wf()
                    &&& *it.db == self.db
                    &&& it.cursor == 0
                    &&& it.list.len() == self.db.modules.len()
                    &&& forall|i: int| 0 <= i < it.list.len() ==> it.list[i] == i
                    &&& it.remaining().len() == self.db.modules.len()
                },
                Err(e) => {
                    &&& self.db.list_status != 0
                    &&& e == Error::Errno(Errno(self.db.list_status))
                },
            },
    {
        if self.db.list_status != 0 {
            return Err(Error::Errno(Errno(self.db.list_status)));
        }
        let n = self.db.modules.len();
        let mut list: Vec<usize> = Vec::new();
        let mut i: usize = 0;
        while i < n
            invariant
                i <= n,
                list.len() == i,
                forall|j: int| 0 <= j < i ==> list[j] == j,
            decreases n - i,
        {
            list.push(i);
            i += 1;
        }
        Ok(ModuleIterator { db: &self.db, list, cursor: 0 })
    }

    /// Resolve a module by its logical name, without loading it.
    pub fn module_new_from_name(&self, name: &str) -> (r: Result<Module<'_>, Error>)
        requires
            self.wf(),
        ensures
            ({
                let outcome = spec_lookup_result(
                    self.db,
                    record_keys(self.db.modules@, false),
                    name@,
                );
                match r {
                    Ok(m) => {
                        &&& outcome == Ok::<int, Error>(m.index as int)
                        &&& m.db == &self.db
                        &&& m.wf()
                        &&& m.record().name@ == name@
                    },
                    Err(e) => outcome == Err::<int, Error>(e),
                }
            }),
    {
        if contains_nul(name) {
            return Err(Error::Nul);
        }
        proof {
            lemma_find_characterization(record_keys(self.db.modules@, false), name@);
        }
        match self.find_record(name, false) {
            Some(i) => Ok(Module { db: &self.db, index: i }),
            None => Err(Error::Errno(Errno(self.db.lookup_status))),
        }
    }

    /// Resolve a module by the filesystem path of its image, without
    /// loading it.
    pub fn module_new_from_path(&self, filename: &str) -> (r: Result<Module<'_>, Error>)
        requires
            self.wf(),
        ensures
            ({
                let outcome = spec_lookup_result(
                    self.db,
                    record_keys(self.db.modules@, true),
                    filename@,
                );
                match r {
                    Ok(m) => {
                        &&& outcome == Ok::<int, Error>(m.index as int)
                        &&& m.db == &self.db
                        &&& m.wf()
                        &&& m.record().path@ == filename@
                    },
                    Err(e) => outcome == Err::<int, Error>(e),
                }
            }),
    {
        if contains_nul(filename) {
            return Err(Error::Nul);
        }
        proof {
            lemma_find_characterization(record_keys(self.db.modules@, true), filename@);
        }
        match self.find_record(filename, true) {
            Some(i) => Ok(Module { db: &self.db, index: i }),
            None => Err(Error::Errno(Errno(self.db.lookup_status))),
        }
    }

    /// Scan the records, front to back, for the first whose name (or
    /// path) equals `key`.
    fn find_record(&self, key: &str, by_path: bool) -> (r: Option<usize>)
        ensures
            ({
                let keys = record_keys(self.db.modules@, by_path);
                match r {
                    Some(i) => {
                        &&& spec_find(keys, key@) == Some(i as int)
                        &&& i < self.db.modules.len()
                    },
                    None => spec_find(keys, key@) is None,
                }
            }),
    {
        let ghost keys = record_keys(self.db.modules@, by_path);
        let n = self.db.modules.len();
        let mut i: usize = 0;
        while i < n
            invariant
                n == self.db.modules.len(),
                keys == record_keys(self.db.modules@, by_path),
                i <= n,
                forall|j: int| 0 <= j < i ==> keys[j] != key@,
            decreases n - i,
        {
            let found = if by_path {
                str_eq(self.db.modules[i].path.as_str(), key)
            } else {
                str_eq(self.db.modules[i].name.as_str(), key)
            };
            if found {
                proof {
                    lemma_find_characterization(keys, key@);
                    assert(keys[i as int] == key@);
                }
                return Some(i);
            }
            i += 1;
        }
        proof {
            lemma_find_characterization(keys, key@);
        }
        None
    }
}

/// An embedded NUL in a lookup key is rejected by the argument alone:
/// whatever two databases hold, the outcome is the same invalid-argument
/// error, decided before anything could reach the native layer.
pub proof fn lemma_nul_lookup_uniform(
    db1: Database,
    db2: Database,
    keys1: Seq<Seq<char>>,
    keys2: Seq<Seq<char>>,
    key: Seq<char>,
)
    requires
        has_nul(key),
    ensures
        spec_lookup_result(db1, keys1, key) == Err::<int, Error>(Error::Nul),
        spec_lookup_result(db1, keys1, key) == spec_lookup_result(db2, keys2, key),
{
}

} // verus!
