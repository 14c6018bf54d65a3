//! Interception pipeline: the announce/commit rendezvous around one file
//! load.
//!
//! The announce hook runs as the game begins a file's decompress/copy path:
//! it computes which logical file is in flight and records it in the shared
//! slot. A commit hook runs later, on whatever thread performs the physical
//! copy, drains the slot and substitutes the file's bytes. The slot is a
//! single-producer single-slot rendezvous, not a queue: the design relies on
//! announce preceding the matching commit, and this library preserves that
//! behaviour rather than widening it.

use crate::substitute::{
    plain_substituted, substitute_file, substitute_texture, texture_substituted,
    TEXTURE_FOOTER_SIZE,
};
use crate::tables::{ArcTables, LoadStateEntry};
use vstd::prelude::*;

verus! {

/// Declares parking_lot's reader-writer lock as an opaque outside type so
/// the shared slot can hold one.
#[verifier::external_type_specification]
#[verifier::external_body]
#[verifier::reject_recursive_types(R)]
#[verifier::reject_recursive_types(T)]
pub struct ExRwLock<R, T: ?Sized>(parking_lot::lock_api::RwLock<R, T>);

/// Declares the lock's raw implementation type, which its generic carries.
#[verifier::external_type_specification]
#[verifier::external_body]
pub struct ExRawRwLock(parking_lot::RawRwLock);

/// The shared interception slot: the logical file identity the announce hook
/// recorded for the load in flight, or `None` between files. The announce
/// thread writes it under exclusive access, commit threads read it under
/// shared access; other threads may overwrite it at any moment, so no
/// contract relates one access to another. The verified commit logic takes
/// whatever value a read returned.
pub struct SharedSlot {
    lock: parking_lot::RwLock<Option<u32>>,
}

impl SharedSlot {
    /// Relies on parking_lot::RwLock::new: builds a lock around an empty
    /// slot.
    #[verifier::external_body]
    pub fn new() -> SharedSlot {
        SharedSlot { lock: parking_lot::RwLock::new(None) }
    }

    /// Relies on parking_lot::RwLock::write: takes exclusive access for the
    /// duration of the one write, then releases it.
    #[verifier::external_body]
    pub fn store(&self, pending: Option<u32>) {
        *self.lock.write() = pending;
    }

    /// Relies on parking_lot::RwLock::read: takes shared access for the one
    /// read, then releases it. The value is whatever the latest write left.
    #[verifier::external_body]
    pub fn load(&self) -> Option<u32> {
        *self.lock.read()
    }
}

/// Buffer descriptor handed to the directory-inflate call site: the address
/// and declared size of one physical buffer.
#[derive(Clone, Copy, PartialEq, Eq, Structural, Debug)]
pub struct InflateFile {
    /// Address of the buffer's first byte.
    pub content: usize,
    /// Declared size of the buffer in bytes.
    pub size: u64,
}

/// What the announce hook records: the load-state slot of the file the
/// loader is about to process, computed from the loader's own in-flight
/// bookkeeping. `None` when the computed index leaves the `FileInfos` table,
/// which suppresses substitution for that file.
pub fn announce_target(tables: &ArcTables, processing_start: u32, in_flight: u32) -> (r: Option<
    u32,
>)
    ensures
        r == if processing_start + in_flight < tables@.file_infos.len() {
            Some(tables@.file_infos[processing_start + in_flight].hash_index_2)
        } else {
            None::<u32>
        },
{
    let info_index = processing_start as u64 + in_flight as u64;
    if info_index < tables.file_infos.len() as u64 {
        Some(tables.file_infos[info_index as usize].hash_index_2)
    } else {
        None
    }
}

/// Bounds-checked read of one runtime load-state entry; `None` when the slot
/// index leaves the table, which suppresses substitution for that file.
pub fn get_load_state(tables: &ArcTables, table2_idx: u32) -> (r: Option<LoadStateEntry>)
    ensures
        r == if table2_idx < tables@.load_states.len() {
            Some(tables@.load_states[table2_idx as int])
        } else {
            None::<LoadStateEntry>
        },
{
    if (table2_idx as usize) < tables.load_states.len() {
        Some(tables.load_states[table2_idx as usize])
    } else {
        None
    }
}

/// What a commit hook does with the slot value it read: nothing when no
/// substitution is pending, and nothing for slot zero at the directory-load
/// call site, which that call site treats as "no file"; otherwise the slot
/// is substituted.
pub open spec fn commit_decision(pending: Option<u32>, from_directory_load: bool) -> Option<u32> {
    match pending {
        Some(idx) => if from_directory_load && idx == 0 {
            None
        } else {
            Some(idx)
        },
        None => None,
    }
}

/// The load-state slot a commit hook substitutes, given the slot value it
/// read and the call site it fired at; see `commit_decision`.
pub fn commit_target(pending: Option<u32>, from_directory_load: bool) -> (r: Option<u32>)
    ensures
        r == commit_decision(pending, from_directory_load),
{
    match pending {
        Some(idx) => {
            if from_directory_load && idx == 0 {
                None
            } else {
                Some(idx)
            }
        },
        None => None,
    }
}

/// Whether a file's extension hash names the special-cased texture format,
/// whose substitution must preserve the trailing footer.
pub fn is_texture_extension(extension_hash: u64) -> (r: bool)
    ensures
        r == (extension_hash == crate::tables::hash40_of("nutexb"@)),
{
    extension_hash == crate::tables::hash_of_path("nutexb")
}

/// Whether a load-state entry can take a substitution now: the loader must
/// have a buffer resident for the slot.
pub fn should_substitute(entry: &LoadStateEntry) -> (r: bool)
    ensures
        r == (entry.data != 0),
{
    entry.data != 0
}

/// One whole commit step on one file: given the slot value a commit hook
/// read, the call site it fired at, the load-state entry of the decided
/// slot, and the replacement the collaborator resolved for it, performs the
/// substitution exactly when one is due. The buffer stands for the bytes at
/// the entry's resident address; it is never written past, and it is left
/// untouched whenever the step declines.
pub fn commit_substitution(
    pending: Option<u32>,
    from_directory_load: bool,
    entry: &LoadStateEntry,
    is_texture: bool,
    buffer: &mut Vec<u8>,
    replacement: &Vec<u8>,
) -> (performed: bool)
    requires
        is_texture ==> old(buffer)@.len() >= TEXTURE_FOOTER_SIZE && replacement@.len()
            >= TEXTURE_FOOTER_SIZE,
    ensures
        performed == (commit_decision(pending, from_directory_load) is Some && entry.data != 0),
        final(buffer)@.len() == old(buffer)@.len(),
        performed && is_texture ==> texture_substituted(
            old(buffer)@,
            replacement@,
            final(buffer)@,
        ),
        performed && !is_texture ==> plain_substituted(old(buffer)@, replacement@, final(buffer)@),
        !performed ==> final(buffer)@ == old(buffer)@,
{
    let target = commit_target(pending, from_directory_load);
    if target.is_some() && should_substitute(entry) {
        apply_substitution(buffer, replacement, is_texture);
        true
    } else {
        false
    }
}

/// Performs the substitution a commit hook decided on: the
/// footer-preserving path for the special-cased texture format, the plain
/// truncating path for everything else. Never writes past the buffer.
pub fn apply_substitution(buffer: &mut Vec<u8>, replacement: &Vec<u8>, is_texture: bool)
    requires
        is_texture ==> old(buffer)@.len() >= TEXTURE_FOOTER_SIZE && replacement@.len()
            >= TEXTURE_FOOTER_SIZE,
    ensures
        final(buffer)@.len() == old(buffer)@.len(),
        is_texture ==> texture_substituted(old(buffer)@, replacement@, final(buffer)@),
        !is_texture ==> plain_substituted(old(buffer)@, replacement@, final(buffer)@),
{
    if is_texture {
        substitute_texture(buffer, replacement);
    } else {
        substitute_file(buffer, replacement);
    }
}

} // verus!
