//! A safe, verified model of a loadable-kernel-module management interface:
//! sessions with a module database, module handles with metadata accessors
//! and insert/remove operations, and forward-only iteration over module
//! lists. Handles stay valid for as long as their session lives,
//! independently of the iterator that produced them.

mod ctx;
mod db;
mod errors;
mod modules;
mod text;

pub use ctx::lemma_find_characterization;
pub use ctx::lemma_nul_lookup_uniform;
pub use ctx::record_keys;
pub use ctx::spec_find;
pub use ctx::spec_lookup_result;
pub use ctx::Context;
pub use db::Database;
pub use db::ModuleRecord;
pub use errors::Errno;
pub use errors::Error;
pub use modules::lemma_advance_many_adds;
pub use modules::lemma_exhausted_idempotent;
pub use modules::lemma_nul_insert_uniform;
pub use modules::lemma_traversal_yields_in_order;
pub use modules::spec_advance;
pub use modules::spec_advance_many;
pub use modules::spec_insert_result;
pub use modules::spec_remove_result;
pub use modules::spec_yield;
pub use modules::Module;
pub use modules::ModuleIterator;
pub use text::contains_nul;
pub use text::has_nul;
pub use text::join_options;
pub use text::lemma_join_empty;
pub use text::lemma_join_preserves_nul;
pub use text::lemma_join_single;
pub use text::spec_join;
pub use text::str_eq;
