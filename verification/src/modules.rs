//! Module handles and the iteration protocol over module lists.
//!
//! A `Module` is a handle to one record of the database; it borrows the
//! session's database, so a handle stays valid for as long as the session
//! lives, independently of the iterator that produced it. A
//! `ModuleIterator` is a forward-only, non-restartable cursor over a list
//! of record indices; once exhausted it never produces another element.

use vstd::prelude::*;

use crate::db::Database;
use crate::db::ModuleRecord;
use crate::errors::Errno;
use crate::errors::Error;
use crate::text::contains_nul;
use crate::text::has_nul;
use crate::text::join_options;
use crate::text::spec_join;

verus! {

/// A handle to one module's record in the session's database.
#[derive(Debug)]
pub struct Module<'a> {
    /// The session's database.
    pub db: &'a Database,
    /// The record this handle denotes.
    pub index: usize,
}

/// The outcome of asking the kernel to insert the module described by
/// `record`, with the given option strings: an embedded NUL in the joined
/// options is rejected before anything reaches the native layer; otherwise
/// the record's configured insert status decides.
pub open spec fn spec_insert_result(record: ModuleRecord, opts: Seq<Seq<char>>) -> Result<
    (),
    Error,
> {
    if has_nul(spec_join(opts)) {
        Err(Error::Nul)
    } else if record.insert_status != 0 {
        Err(Error::Errno(Errno(record.insert_status)))
    } else {
        Ok(())
    }
}

/// The outcome of asking the kernel to remove the module described by
/// `record`: the record's configured remove status decides.
pub open spec fn spec_remove_result(record: ModuleRecord) -> Result<(), Error> {
    if record.remove_status != 0 {
        Err(Error::Errno(Errno(record.remove_status)))
    } else {
        Ok(())
    }
}

impl<'a> Module<'a> {
    /// The handle denotes a real record of a well-formed database.
    pub open spec fn wf(&self) -> bool {
        &&& self.db.wf()
        &&& self.index < self.db.modules.len()
    }

    /// The record this handle denotes.
    pub open spec fn record(&self) -> ModuleRecord {
        self.db.modules[self.index as int]
    }

    /// The module's name, copied into an owned string.
    pub fn name(&self) -> (r: String)
        requires
            self.wf(),
        ensures
            r@ == self.record().name@,
    {
        self.db.modules[self.index].name.clone()
    }

    /// The module's size in bytes.
    pub fn size(&self) -> (r: i64)
        requires
            self.wf(),
        ensures
            r == self.record().size,
    {
        self.db.modules[self.index].size
    }

    /// The number of other modules and kernel subsystems depending on
    /// this one.
    pub fn refcount(&self) -> (r: i32)
        requires
            self.wf(),
        ensures
            r == self.record().refcount,
    {
        self.db.modules[self.index].refcount
    }

    /// The module's on-disk path, copied into an owned string.
    pub fn path(&self) -> (r: String)
        requires
            self.wf(),
        ensures
            r@ == self.record().path@,
    {
        self.db.modules[self.index].path.clone()
    }

    /// The module's currently loaded options, copied into an owned string;
    /// empty if none.
    pub fn options(&self) -> (r: String)
        requires
            self.wf(),
        ensures
            r@ == self.record().options@,
    {
        self.db.modules[self.index].options.clone()
    }

    /// Iterate over the modules depending on this one; an empty list
    /// yields an iterator that immediately produces no elements.
    pub fn holders(&self) -> (r: ModuleIterator<'a>)
        requires
            self.wf(),
        ensures
            r.wf(),
            r.db == self.db,
            r.list@ == self.record().holders@,
            r.cursor == 0,
    {
        ModuleIterator {
            db: self.db,
            list: copy_indices(&self.db.modules[self.index].holders),
            cursor: 0,
        }
    }

    /// Iterate over the modules this one requires.
    pub fn dependencies(&self) -> (r: ModuleIterator<'a>)
        requires
            self.wf(),
        ensures
            r.wf(),
            r.db == self.db,
            r.list@ == self.record().dependencies@,
            r.cursor == 0,
    {
        ModuleIterator {
            db: self.db,
            list: copy_indices(&self.db.modules[self.index].dependencies),
            cursor: 0,
        }
    }

    /// Ask the kernel to insert this module, with the given load-time
    /// flags and option strings. The options are joined into one
    /// space-separated argument first; an embedded NUL anywhere in it is
    /// rejected before anything reaches the native layer. The flags are
    /// passed through opaquely and do not influence which error is
    /// reported.
    pub fn insert_module(&self, flags: u32, opts: Vec<String>) -> (r: Result<(), Error>)
        requires
            self.wf(),
        ensures
            r == spec_insert_result(self.record(), opts.deep_view()),
    {
        let _ = flags;
        let joined = join_options(&opts);
        if contains_nul(joined.as_str()) {
            Err(Error::Nul)
        } else {
            let status = self.db.modules[self.index].insert_status;
            if status != 0 {
                Err(Error::Errno(Errno(status)))
            } else {
                Ok(())
            }
        }
    }

    /// Ask the kernel to remove this module, with the given unload-time
    /// flags. The flags are passed through opaquely and do not influence
    /// which error is reported.
    pub fn remove_module(&self, flags: u32) -> (r: Result<(), Error>)
        requires
            self.wf(),
        ensures
            r == spec_remove_result(self.record()),
    {
        let _ = flags;
        let status = self.db.modules[self.index].remove_status;
        if status != 0 {
            Err(Error::Errno(Errno(status)))
        } else {
            Ok(())
        }
    }
}

/// An owned copy of a list of record indices.
fn copy_indices(v: &Vec<usize>) -> (r: Vec<usize>)
    ensures
        r@ == v@,
{
    let mut out: Vec<usize> = Vec::new();
    let mut i: usize = 0;
    while i < v.len()
        invariant
            i <= v.len(),
            out@ == v@.take(i as int),
        decreases v.len() - i,
    {
        out.push(v[i]);
        proof {
            assert(out@ =~= v@.take(i + 1));
        }
        i += 1;
    }
    proof {
        assert(v@.take(v.len() as int) =~= v@);
    }
    out
}

/// A forward-only cursor over a list of module records. The whole list is
/// released exactly once, when the iterator itself goes out of scope;
/// elements already produced are independent handles and outlive the
/// iterator.
#[derive(Debug)]
pub struct ModuleIterator<'a> {
    /// The session's database.
    pub db: &'a Database,
    /// The record indices of the list, in list order.
    pub list: Vec<usize>,
    /// How many elements have been produced so far.
    pub cursor: usize,
}

/// One advance of a cursor at position `cursor` over a list of `len`
/// entries: before the end it moves one entry forward, at the end it
/// stays put.
pub open spec fn spec_advance(len: nat, cursor: nat) -> nat {
    if cursor < len {
        cursor + 1
    } else {
        cursor
    }
}

/// What one advance from position `cursor` produces: the entry reached,
/// or nothing once the end was reached.
pub open spec fn spec_yield(list: Seq<usize>, cursor: nat) -> Option<usize> {
    if cursor < list.len() {
        Some(list[cursor as int])
    } else {
        None
    }
}

/// The cursor position after `n` advances over a list of `len` entries.
pub open spec fn spec_advance_many(len: nat, cursor: nat, n: nat) -> nat
    decreases n,
{
    if n == 0 {
        cursor
    } else {
        spec_advance_many(len, spec_advance(len, cursor), (n - 1) as nat)
    }
}

impl<'a> ModuleIterator<'a> {
    /// The cursor stays within the list, and every list entry denotes a
    /// real record of a well-formed database.
    pub open spec fn wf(&self) -> bool {
        &&& self.db.wf()
        &&& self.cursor <= self.list.len()
        &&& forall|i: int| 0 <= i < self.list.len() ==> self.list[i] < self.db.modules.len()
    }

    /// The record indices not yet produced.
    pub open spec fn remaining(&self) -> Seq<usize> {
        self.list@.skip(self.cursor as int)
    }

    /// No further element will ever be produced.
    pub open spec fn exhausted(&self) -> bool {
        self.cursor >= self.list.len()
    }

    /// Advance the cursor: before the end of the list this produces a
    /// fresh handle to the record at the cursor; at the end it produces
    /// nothing and leaves the iterator unchanged, however often it is
    /// called again.
    pub fn next(&mut self) -> (r: Option<Module<'a>>)
        requires
            old(self).wf(),
        ensures
            final(self).wf(),
            final(self).db == old(self).db,
            final(self).list == old(self).list,
            final(self).cursor as nat == spec_advance(
                old(self).list.len() as nat,
                old(self).cursor as nat,
            ),
            old(self).exhausted() ==> r is None && *final(self) == *old(self),
            match r {
                Some(m) => {
                    &&& spec_yield(old(self).list@, old(self).cursor as nat) == Some(m.index)
                    &&& m.db == old(self).db
                    &&& m.wf()
                },
                None => {
                    &&& spec_yield(old(self).list@, old(self).cursor as nat) is None
                    &&& *final(self) == *old(self)
                },
            },
    {
        if self.cursor < self.list.len() {
            let index = self.list[self.cursor];
            self.cursor = self.cursor + 1;
            Some(Module { db: self.db, index })
        } else {
            None
        }
    }
}

/// Idempotent exhaustion: from a position at or past the end of the list,
/// any number of further advances leaves the cursor where it is and
/// yields no element.
pub proof fn lemma_exhausted_idempotent(list: Seq<usize>, cursor: nat, n: nat)
    requires
        cursor >= list.len(),
    ensures
        spec_advance_many(list.len(), cursor, n) == cursor,
        spec_yield(list, spec_advance_many(list.len(), cursor, n)) is None,
    decreases n,
{
    if n > 0 {
        lemma_exhausted_idempotent(list, cursor, (n - 1) as nat);
    }
}

/// Before the end of the list the cursor moves one entry per advance:
/// `n` advances from `cursor` land on `cursor + n` as long as that does
/// not pass the end.
pub proof fn lemma_advance_many_adds(len: nat, cursor: nat, n: nat)
    requires
        cursor + n <= len,
    ensures
        spec_advance_many(len, cursor, n) == cursor + n,
    decreases n,
{
    if n > 0 {
        lemma_advance_many_adds(len, cursor + 1, (n - 1) as nat);
    }
}

/// An embedded NUL among the option strings is rejected by the arguments
/// alone: whatever record the insert is aimed at, the outcome is the same
/// invalid-argument error, decided before anything could reach the native
/// layer.
pub proof fn lemma_nul_insert_uniform(r1: ModuleRecord, r2: ModuleRecord, opts: Seq<Seq<char>>)
    requires
        has_nul(spec_join(opts)),
    ensures
        spec_insert_result(r1, opts) == Err::<(), Error>(Error::Nul),
        spec_insert_result(r1, opts) == spec_insert_result(r2, opts),
{
}

/// A full traversal yields exactly one element per list entry, in list
/// order: the `k`-th advance from the start yields entry `k`, and after
/// as many advances as there are entries the iterator is exhausted.
pub proof fn lemma_traversal_yields_in_order(list: Seq<usize>)
    ensures
        forall|k: nat|
            k < list.len() ==> spec_yield(list, spec_advance_many(list.len(), 0, k)) == Some(
                list[k as int],
            ),
        spec_advance_many(list.len(), 0, list.len()) == list.len(),
{
    assert forall|k: nat| k < list.len() implies spec_yield(
        list,
        spec_advance_many(list.len(), 0, k),
    ) == Some(list[k as int]) by {
        lemma_advance_many_adds(list.len(), 0, k);
    }
    lemma_advance_many_adds(list.len(), 0, list.len());
}

} // verus!
