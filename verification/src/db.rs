//! The module database as plain data: one record per loaded module, in
//! list order, together with the statuses the database reports for the
//! fallible operations. A live system fills this in from the host's
//! module list; a controlled database is built directly by tests.

use vstd::prelude::*;

verus! {

/// One module's record: its metadata, its relationships to other records
/// (by index into the database's list), and the status the kernel reports
/// for mutating operations on it (`0` for success, otherwise the error
/// code that a failing native call would leave behind).
#[derive(Debug)]
pub struct ModuleRecord {
    /// The module's logical name.
    pub name: String,
    /// Size in bytes; the library-defined sentinel for "unknown" is passed
    /// through unchanged.
    pub size: i64,
    /// Number of other modules and kernel subsystems depending on this one.
    pub refcount: i32,
    /// On-disk path of the module image.
    pub path: String,
    /// Currently loaded options; empty if none.
    pub options: String,
    /// Indices of the records of modules that depend on this one.
    pub holders: Vec<usize>,
    /// Indices of the records of modules this one requires.
    pub dependencies: Vec<usize>,
    /// Status reported for inserting this module into the kernel.
    pub insert_status: i32,
    /// Status reported for removing this module from the kernel.
    pub remove_status: i32,
}

impl ModuleRecord {
    /// Every cross-reference of this record stays inside a database of
    /// `n` records.
    pub open spec fn indices_ok(&self, n: nat) -> bool {
        &&& forall|i: int| 0 <= i < self.holders.len() ==> self.holders[i] < n
        &&& forall|i: int| 0 <= i < self.dependencies.len() ==> self.dependencies[i] < n
    }
}

/// A snapshot of the module database: the records of the currently loaded
/// modules, in list order, and the session-level statuses.
#[derive(Debug)]
pub struct Database {
    /// The loaded modules' records, in the order the database lists them.
    pub modules: Vec<ModuleRecord>,
    /// Whether a session handle can be acquired at all; a database that
    /// reports `false` models a null session handle.
    pub session_ok: bool,
    /// Status reported for building the loaded-modules list.
    pub list_status: i32,
    /// Error code reported when a name or path lookup finds no record.
    pub lookup_status: i32,
}

impl Database {
    /// Well-formedness: every cross-reference between records stays in
    /// bounds.
    pub open spec fn wf(&self) -> bool {
        forall|i: int| 0 <= i < self.modules.len()
            ==> (#[trigger] self.modules[i]).indices_ok(self.modules.len() as nat)
    }

    /// Runtime check of `wf`.
    pub fn check(&self) -> (r: bool)
        ensures
            r == self.wf(),
    {
        let n = self.modules.len();
        let mut i: usize = 0;
        while i < n
            invariant
                n == self.modules.len(),
                i <= n,
                forall|j: int| 0 <= j < i ==> (#[trigger] self.modules[j]).indices_ok(n as nat),
            decreases n - i,
        {
            if !indices_below(&self.modules[i].holders, n) {
                return false;
            }
            if !indices_below(&self.modules[i].dependencies, n) {
                return false;
            }
            i += 1;
        }
        true
    }
}

/// Every entry of `v` is smaller than `n`.
fn indices_below(v: &Vec<usize>, n: usize) -> (r: bool)
    ensures
        r == forall|i: int| 0 <= i < v.len() ==> v[i] < n,
{
    let mut i: usize = 0;
    while i < v.len()
        invariant
            i <= v.len(),
            forall|j: int| 0 <= j < i ==> v[j] < n,
        decreases v.len() - i,
    {
        if v[i] >= n {
            return false;
        }
        i += 1;
    }
    true
}

} // verus!
