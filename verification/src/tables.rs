//! Archive table remapper.
//!
//! The game keeps its packed-asset index resident as a set of
//! mutually-referential fixed-layout tables. A logical path whose
//! `FileInfoIndices` entry is shared with sibling paths cannot be redirected
//! independently; `unshared` grows the tables by one linked entry each and
//! repoints the target path at the new chain, leaving every sibling's chain
//! untouched.

use vstd::pervasive::VecAdditionalExecFns;
use vstd::prelude::*;

verus! {

/// One `FilePaths` entry: a path hash and its slot in `FileInfoIndices`.
#[derive(Clone, Copy, PartialEq, Eq, Structural, Debug)]
pub struct FilePathEntry {
    /// 40-bit path hash, as the archive stores it.
    pub path_hash: u64,
    /// Index into `FileInfoIndices`.
    pub index: u32,
}

/// One `FileInfoIndices` entry.
#[derive(Clone, Copy, PartialEq, Eq, Structural, Debug)]
pub struct FileInfoIndexEntry {
    /// Index of the directory-offset record this slot belongs to.
    pub dir_offset_index: u32,
    /// Index into `FileInfos`.
    pub file_info_index: u32,
}

/// One `FileInfos` entry: the metadata of one physical sub-file.
#[derive(Clone, Copy, PartialEq, Eq, Structural, Debug)]
pub struct FileInfoEntry {
    /// Index back into `FilePaths`.
    pub hash_index: u32,
    /// Index back into `FileInfoIndices` (the slot that owns this info).
    pub hash_index_2: u32,
    /// Index into `FileInfoToDatas`.
    pub info_to_data_index: u32,
    /// Whether this entry was spliced in as an independently redirectable copy.
    pub is_redirect: bool,
}

/// One `FileInfoToDatas` entry: links a `FileInfos` entry to its region's
/// physical data record.
#[derive(Clone, Copy, PartialEq, Eq, Structural, Debug)]
pub struct FileInfoToDataEntry {
    /// Index into `FileDatas`.
    pub file_data_index: u32,
}

/// One `FileDatas` entry: a physical data descriptor.
#[derive(Clone, Copy, PartialEq, Eq, Structural, Debug)]
pub struct FileDataEntry {
    /// Offset of the record inside its folder's blob.
    pub offset_in_folder: u32,
    /// Compressed size in bytes.
    pub comp_size: u32,
    /// Decompressed size in bytes.
    pub decomp_size: u32,
}

/// One runtime load-state entry, parallel to `FileInfoIndices`: the buffer
/// the loader currently holds for that slot.
#[derive(Clone, Copy, PartialEq, Eq, Structural, Debug)]
pub struct LoadStateEntry {
    /// Address of the loaded buffer; zero when nothing is resident.
    pub data: u64,
    /// The loader's reference count for the slot.
    pub ref_count: u32,
    /// Whether the loader considers the slot in use.
    pub is_used: bool,
}

/// The header's element counts, one per growable table. The game's own
/// readers bound their accesses by these, so each must equal the allocated
/// length of its table at all times.
#[derive(Clone, Copy, PartialEq, Eq, Structural, Debug)]
pub struct ArcHeader {
    pub file_info_index_count: u32,
    pub file_info_count: u32,
    pub file_info_to_data_count: u32,
    pub file_data_count: u32,
    pub load_state_count: u32,
}

/// The resident archive container: the five linked tables, the runtime
/// load-state table and the header, held as bounds-checked views of what the
/// game keeps behind raw pointers.
pub struct ArcTables {
    pub file_paths: Vec<FilePathEntry>,
    pub file_info_indices: Vec<FileInfoIndexEntry>,
    pub file_infos: Vec<FileInfoEntry>,
    pub file_info_to_datas: Vec<FileInfoToDataEntry>,
    pub file_datas: Vec<FileDataEntry>,
    pub load_states: Vec<LoadStateEntry>,
    pub header: ArcHeader,
}

/// The mathematical model of an `ArcTables` value.
#[verifier::ext_equal]
pub struct ArcTablesView {
    pub file_paths: Seq<FilePathEntry>,
    pub file_info_indices: Seq<FileInfoIndexEntry>,
    pub file_infos: Seq<FileInfoEntry>,
    pub file_info_to_datas: Seq<FileInfoToDataEntry>,
    pub file_datas: Seq<FileDataEntry>,
    pub load_states: Seq<LoadStateEntry>,
    pub header: ArcHeader,
}

impl View for ArcTables {
    type V = ArcTablesView;

    open spec fn view(&self) -> ArcTablesView {
        ArcTablesView {
            file_paths: self.file_paths@,
            file_info_indices: self.file_info_indices@,
            file_infos: self.file_infos@,
            file_info_to_datas: self.file_info_to_datas@,
            file_datas: self.file_datas@,
            load_states: self.load_states@,
            header: self.header,
        }
    }
}

impl ArcTablesView {
    /// Well-formedness: the header counts track the true table lengths, the
    /// load-state table stays parallel to `FileInfoIndices`, and every link
    /// between tables is in bounds, so no chain dangles.
    pub open spec fn wf(self) -> bool {
        &&& self.header.file_info_index_count == self.file_info_indices.len()
        &&& self.header.file_info_count == self.file_infos.len()
        &&& self.header.file_info_to_data_count == self.file_info_to_datas.len()
        &&& self.header.file_data_count == self.file_datas.len()
        &&& self.header.load_state_count == self.load_states.len()
        &&& self.load_states.len() == self.file_info_indices.len()
        &&& forall|i: int|
            0 <= i < self.file_paths.len() ==> (#[trigger] self.file_paths[i]).index
                < self.file_info_indices.len()
        &&& forall|i: int|
            0 <= i < self.file_info_indices.len() ==> (
            #[trigger] self.file_info_indices[i]).file_info_index < self.file_infos.len()
        &&& forall|i: int|
            0 <= i < self.file_infos.len() ==> (#[trigger] self.file_infos[i]).info_to_data_index
                < self.file_info_to_datas.len()
        &&& forall|i: int|
            0 <= i < self.file_info_to_datas.len() ==> (
            #[trigger] self.file_info_to_datas[i]).file_data_index < self.file_datas.len()
    }
}

/// Index of the first `FilePaths` entry at or after `i` whose hash is `hash`.
pub open spec fn find_path_from(paths: Seq<FilePathEntry>, hash: u64, i: int) -> Option<int>
    decreases paths.len() - i,
{
    if i < 0 || i >= paths.len() {
        None
    } else if paths[i].path_hash == hash {
        Some(i)
    } else {
        find_path_from(paths, hash, i + 1)
    }
}

/// Index of the first `FilePaths` entry whose hash is `hash`.
pub open spec fn find_path(v: ArcTablesView, hash: u64) -> Option<int> {
    find_path_from(v.file_paths, hash, 0)
}

/// The physical data descriptor that path `p` resolves to, following the
/// chain `FilePaths -> FileInfoIndices -> FileInfos -> FileInfoToDatas ->
/// FileDatas`.
pub open spec fn resolved_data(v: ArcTablesView, p: int) -> FileDataEntry {
    let slot = v.file_paths[p].index as int;
    let info = v.file_infos[v.file_info_indices[slot].file_info_index as int];
    let i2d = v.file_info_to_datas[info.info_to_data_index as int];
    v.file_datas[i2d.file_data_index as int]
}

/// The container after granting path `p` an independent chain: each growable
/// table is extended by one copied-and-relinked entry, the target path is
/// repointed at the new `FileInfoIndices` slot, and the header counts grow to
/// match.
pub open spec fn remapped(v: ArcTablesView, p: int) -> ArcTablesView {
    let fp = v.file_paths[p];
    let idx_entry = v.file_info_indices[fp.index as int];
    let info = v.file_infos[idx_entry.file_info_index as int];
    let i2d = v.file_info_to_datas[info.info_to_data_index as int];
    let data = v.file_datas[i2d.file_data_index as int];
    ArcTablesView {
        file_paths: v.file_paths.update(
            p,
            FilePathEntry { path_hash: fp.path_hash, index: v.file_info_indices.len() as u32 },
        ),
        file_info_indices: v.file_info_indices.push(
            FileInfoIndexEntry {
                dir_offset_index: idx_entry.dir_offset_index,
                file_info_index: v.file_infos.len() as u32,
            },
        ),
        file_infos: v.file_infos.push(
            FileInfoEntry {
                hash_index: info.hash_index,
                hash_index_2: v.file_info_indices.len() as u32,
                info_to_data_index: v.file_info_to_datas.len() as u32,
                is_redirect: true,
            },
        ),
        file_info_to_datas: v.file_info_to_datas.push(
            FileInfoToDataEntry { file_data_index: v.file_datas.len() as u32 },
        ),
        file_datas: v.file_datas.push(data),
        load_states: v.load_states.push(v.load_states[0]),
        header: ArcHeader {
            file_info_index_count: (v.file_info_indices.len() + 1) as u32,
            file_info_count: (v.file_infos.len() + 1) as u32,
            file_info_to_data_count: (v.file_info_to_datas.len() + 1) as u32,
            file_data_count: (v.file_datas.len() + 1) as u32,
            load_state_count: (v.load_states.len() + 1) as u32,
        },
    }
}

/// Error cases of the remapper.
#[derive(Clone, Copy, PartialEq, Eq, Structural, Debug)]
pub enum RemapError {
    /// No `FilePaths` entry carries the requested hash; the container was
    /// left untouched.
    UnknownPathHash,
}

/// Copies a table into fresh storage with room for one appended entry.
pub fn expand_table<T: Clone>(source: &[T]) -> (r: Vec<T>)
    requires
        source@.len() < usize::MAX,
    ensures
        r@.len() == source@.len(),
        forall|i: int| 0 <= i < source@.len() ==> cloned::<T>(source@[i], #[trigger] r@[i]),
{
    let n = source.len();
    let mut r: Vec<T> = Vec::with_capacity(n + 1);
    let mut i: usize = 0;
    while i < n
        invariant
            0 <= i <= n,
            n == source@.len(),
            r@.len() == i,
            forall|k: int| 0 <= k < i ==> cloned::<T>(source@[k], #[trigger] r@[k]),
        decreases n - i,
    {
        r.push(source[i].clone());
        i = i + 1;
    }
    r
}

/// What a `find_path_from` answer means: a hit names the first entry at or
/// after `i` carrying the hash; a miss means no entry from `i` on carries it.
pub proof fn lemma_find_path_from_props(paths: Seq<FilePathEntry>, hash: u64, i: int)
    requires
        0 <= i,
    ensures
        match find_path_from(paths, hash, i) {
            Some(p) => {
                &&& i <= p < paths.len()
                &&& paths[p].path_hash == hash
                &&& forall|q: int| i <= q < p ==> (#[trigger] paths[q]).path_hash != hash
            },
            None => forall|q: int|
                i <= q < paths.len() ==> (#[trigger] paths[q]).path_hash != hash,
        },
    decreases paths.len() - i,
{
    if 0 <= i < paths.len() && paths[i].path_hash != hash {
        lemma_find_path_from_props(paths, hash, i + 1);
    }
}

/// First `FilePaths` index carrying `path_hash`.
fn find_file_path_index(tables: &ArcTables, path_hash: u64) -> (r: Option<usize>)
    ensures
        match find_path(tables@, path_hash) {
            Some(p) => r is Some && r.unwrap() == p,
            None => r is None,
        },
{
    let n = tables.file_paths.len();
    let mut i: usize = 0;
    while i < n
        invariant
            0 <= i <= n,
            n == tables@.file_paths.len(),
            find_path(tables@, path_hash) == find_path_from(tables@.file_paths, path_hash, i as int),
        decreases n - i,
    {
        if tables.file_paths[i].path_hash == path_hash {
            return Some(i);
        }
        i = i + 1;
    }
    None
}

/// First index in `dir`'s half-open `FileInfos` range whose entry points back
/// at `file_path`'s `FileInfoIndices` slot.
pub fn find_file_info_index_in_dir_info(
    tables: &ArcTables,
    file_path: &FilePathEntry,
    dir: &DirInfo,
) -> (r: Option<usize>)
    requires
        dir.file_info_start_index + dir.file_info_count <= tables@.file_infos.len(),
    ensures
        match r {
            Some(i) => {
                &&& dir.file_info_start_index <= i < dir.file_info_start_index
                    + dir.file_info_count
                &&& tables@.file_infos[i as int].hash_index_2 == file_path.index
                &&& forall|j: int|
                    dir.file_info_start_index <= j < i ==> (
                    #[trigger] tables@.file_infos[j]).hash_index_2 != file_path.index
            },
            None => forall|j: int|
                dir.file_info_start_index <= j < dir.file_info_start_index + dir.file_info_count
                    ==> (#[trigger] tables@.file_infos[j]).hash_index_2 != file_path.index,
        },
{
    let start = dir.file_info_start_index as usize;
    let count = dir.file_info_count as usize;
    let n = tables.file_infos.len();
    let end = start + count;
    let mut i: usize = start;
    while i < end
        invariant
            start <= i <= end,
            start == dir.file_info_start_index,
            end == dir.file_info_start_index + dir.file_info_count,
            n == tables@.file_infos.len(),
            end <= n,
            forall|j: int|
                start <= j < i ==> (#[trigger] tables@.file_infos[j]).hash_index_2
                    != file_path.index,
        decreases end - i,
    {
        if tables.file_infos[i].hash_index_2 == file_path.index {
            return Some(i);
        }
        i = i + 1;
    }
    None
}

/// A loaded directory record: the half-open range of `FileInfos` entries
/// belonging to one directory.
#[derive(Clone, Copy, PartialEq, Eq, Structural, Debug)]
pub struct DirInfo {
    pub file_info_start_index: u32,
    pub file_info_count: u32,
}

/// Grants the path carrying `path_hash` an independent table chain.
///
/// On success the returned value is the path's new `FileInfoIndices` slot and
/// the container equals `remapped` of its old value: every sibling still
/// resolves through the untouched old entries, while the target resolves
/// through freshly appended copies. When the hash is unknown the container is
/// left untouched.
pub fn unshared(tables: &mut ArcTables, path_hash: u64) -> (r: Result<u32, RemapError>)
    requires
        old(tables)@.wf(),
        old(tables)@.file_info_indices.len() < u32::MAX,
        old(tables)@.file_infos.len() < u32::MAX,
        old(tables)@.file_info_to_datas.len() < u32::MAX,
        old(tables)@.file_datas.len() < u32::MAX,
    ensures
        match find_path(old(tables)@, path_hash) {
            Some(p) => {
                &&& r == Ok::<u32, RemapError>(old(tables)@.file_info_indices.len() as u32)
                &&& final(tables)@ == remapped(old(tables)@, p)
                &&& final(tables)@.wf()
            },
            None => {
                &&& r == Err::<u32, RemapError>(RemapError::UnknownPathHash)
                &&& final(tables)@ == old(tables)@
            },
        },
{
    let fp_idx = match find_file_path_index(tables, path_hash) {
        Some(i) => i,
        None => {
            return Err(RemapError::UnknownPathHash);
        },
    };
    let ghost v = tables@;
    let ghost p = fp_idx as int;
    proof {
        lemma_find_path_from_props(v.file_paths, path_hash, 0);
    }

    let fp = tables.file_paths[fp_idx];
    let idx_entry = tables.file_info_indices[fp.index as usize];
    let info = tables.file_infos[idx_entry.file_info_index as usize];
    let i2d = tables.file_info_to_datas[info.info_to_data_index as usize];
    let data = tables.file_datas[i2d.file_data_index as usize];

    let new_slot: u32 = tables.file_info_indices.len() as u32;
    let new_info_index: u32 = tables.file_infos.len() as u32;
    let new_i2d_index: u32 = tables.file_info_to_datas.len() as u32;
    let new_data_index: u32 = tables.file_datas.len() as u32;

    // Build every extended table in fresh storage first; the resident tables
    // are replaced only once all of them are complete.
    let mut new_indices = expand_table(tables.file_info_indices.as_slice());
    new_indices.push(
        FileInfoIndexEntry {
            dir_offset_index: idx_entry.dir_offset_index,
            file_info_index: new_info_index,
        },
    );

    let mut new_infos = expand_table(tables.file_infos.as_slice());
    new_infos.push(
        FileInfoEntry {
            hash_index: info.hash_index,
            hash_index_2: new_slot,
            info_to_data_index: new_i2d_index,
            is_redirect: true,
        },
    );

    let mut new_i2ds = expand_table(tables.file_info_to_datas.as_slice());
    new_i2ds.push(FileInfoToDataEntry { file_data_index: new_data_index });

    let mut new_datas = expand_table(tables.file_datas.as_slice());
    new_datas.push(data);

    let slot0 = tables.load_states[0];
    let mut new_states = expand_table(tables.load_states.as_slice());
    new_states.push(slot0);

    proof {
        assert(new_indices@ =~= v.file_info_indices.push(
            FileInfoIndexEntry {
                dir_offset_index: idx_entry.dir_offset_index,
                file_info_index: new_info_index,
            },
        ));
        assert(new_infos@ =~= v.file_infos.push(
            FileInfoEntry {
                hash_index: info.hash_index,
                hash_index_2: new_slot,
                info_to_data_index: new_i2d_index,
                is_redirect: true,
            },
        ));
        assert(new_i2ds@ =~= v.file_info_to_datas.push(
            FileInfoToDataEntry { file_data_index: new_data_index },
        ));
        assert(new_datas@ =~= v.file_datas.push(data));
        assert(new_states@ =~= v.load_states.push(slot0));
    }

    // Repoint the target path, swap in the new tables, then raise the counts.
    tables.file_paths.set(fp_idx, FilePathEntry { path_hash: fp.path_hash, index: new_slot });
    tables.file_info_indices = new_indices;
    tables.file_infos = new_infos;
    tables.file_info_to_datas = new_i2ds;
    tables.file_datas = new_datas;
    tables.load_states = new_states;
    tables.header = ArcHeader {
        file_info_index_count: new_slot + 1,
        file_info_count: new_info_index + 1,
        file_info_to_data_count: new_i2d_index + 1,
        file_data_count: new_data_index + 1,
        load_state_count: new_slot + 1,
    };

    proof {
        assert(tables@ =~= remapped(v, p));
        lemma_remapped_wf(v, p);
    }
    Ok(new_slot)
}

/// The 40-bit hash the archive keys its `FilePaths` entries by, as the
/// game's own scheme computes it; a function of the path string alone.
pub uninterp spec fn hash40_of(path: Seq<char>) -> u64;

/// Relies on smash_arc::hash40: the hash is computed from the path string
/// alone, so equal paths give equal hashes in every process.
#[verifier::external_body]
pub(crate) fn hash_of_path(path: &str) -> (h: u64)
    ensures
        h == hash40_of(path@),
{
    smash_arc::hash40(path).as_u64()
}

/// Grants the path given as a string an independent table chain, resolving
/// its archive hash first; see `unshared`.
pub fn unshared_by_path(tables: &mut ArcTables, path: &str) -> (r: Result<u32, RemapError>)
    requires
        old(tables)@.wf(),
        old(tables)@.file_info_indices.len() < u32::MAX,
        old(tables)@.file_infos.len() < u32::MAX,
        old(tables)@.file_info_to_datas.len() < u32::MAX,
        old(tables)@.file_datas.len() < u32::MAX,
    ensures
        match find_path(old(tables)@, hash40_of(path@)) {
            Some(p) => {
                &&& r == Ok::<u32, RemapError>(old(tables)@.file_info_indices.len() as u32)
                &&& final(tables)@ == remapped(old(tables)@, p)
                &&& final(tables)@.wf()
            },
            None => {
                &&& r == Err::<u32, RemapError>(RemapError::UnknownPathHash)
                &&& final(tables)@ == old(tables)@
            },
        },
{
    let hash = hash_of_path(path);
    unshared(tables, hash)
}

/// Growth law: a remap extends `FileInfoIndices` and `FileInfos` (and the
/// three tables behind them) by exactly one entry, and every header count
/// equals the new length of its table.
pub proof fn lemma_remapped_counts(v: ArcTablesView, p: int)
    requires
        v.wf(),
        0 <= p < v.file_paths.len(),
        v.file_info_indices.len() < u32::MAX,
        v.file_infos.len() < u32::MAX,
        v.file_info_to_datas.len() < u32::MAX,
        v.file_datas.len() < u32::MAX,
    ensures
        ({
            let w = remapped(v, p);
            &&& w.file_info_indices.len() == v.file_info_indices.len() + 1
            &&& w.file_infos.len() == v.file_infos.len() + 1
            &&& w.file_info_to_datas.len() == v.file_info_to_datas.len() + 1
            &&& w.file_datas.len() == v.file_datas.len() + 1
            &&& w.load_states.len() == v.load_states.len() + 1
            &&& w.file_paths.len() == v.file_paths.len()
            &&& w.header.file_info_index_count == w.file_info_indices.len()
            &&& w.header.file_info_count == w.file_infos.len()
            &&& w.header.file_info_to_data_count == w.file_info_to_datas.len()
            &&& w.header.file_data_count == w.file_datas.len()
            &&& w.header.load_state_count == w.load_states.len()
        }),
{
}

/// Separation law: after remapping path `p`, its `FileInfoIndices` slot is
/// new and differs from every other path's slot, every other path's entry is
/// unchanged, every path still resolves to the same physical data descriptor
/// as before, and the target's fresh chain resolves to data identical to the
/// original shared record.
pub proof fn lemma_remapped_separates_target(v: ArcTablesView, p: int)
    requires
        v.wf(),
        0 <= p < v.file_paths.len(),
        v.file_info_indices.len() < u32::MAX,
        v.file_infos.len() < u32::MAX,
        v.file_info_to_datas.len() < u32::MAX,
        v.file_datas.len() < u32::MAX,
    ensures
        ({
            let w = remapped(v, p);
            &&& w.file_paths[p].index == v.file_info_indices.len()
            &&& forall|q: int|
                0 <= q < v.file_paths.len() && q != p ==> #[trigger] w.file_paths[q]
                    == v.file_paths[q]
            &&& forall|q: int|
                0 <= q < v.file_paths.len() && q != p ==> (#[trigger] w.file_paths[q]).index
                    != w.file_paths[p].index
            &&& forall|q: int|
                0 <= q < v.file_paths.len() && q != p ==> #[trigger] resolved_data(w, q)
                    == resolved_data(v, q)
            &&& resolved_data(w, p) == resolved_data(v, p)
        }),
{
    let w = remapped(v, p);
    assert forall|q: int| 0 <= q < v.file_paths.len() && q != p implies #[trigger] resolved_data(
        w,
        q,
    ) == resolved_data(v, q) by {
        assert(w.file_paths[q] == v.file_paths[q]);
        let slot = v.file_paths[q].index as int;
        assert(w.file_info_indices[slot] == v.file_info_indices[slot]);
        let info_idx = v.file_info_indices[slot].file_info_index as int;
        assert(w.file_infos[info_idx] == v.file_infos[info_idx]);
        let i2d_idx = v.file_infos[info_idx].info_to_data_index as int;
        assert(w.file_info_to_datas[i2d_idx] == v.file_info_to_datas[i2d_idx]);
        let data_idx = v.file_info_to_datas[i2d_idx].file_data_index as int;
        assert(w.file_datas[data_idx] == v.file_datas[data_idx]);
    }
}

/// Remapping preserves well-formedness: every new link points at the freshly
/// appended entry of the next table, and the header counts track the grown
/// lengths.
pub proof fn lemma_remapped_wf(v: ArcTablesView, p: int)
    requires
        v.wf(),
        0 <= p < v.file_paths.len(),
        v.file_info_indices.len() < u32::MAX,
        v.file_infos.len() < u32::MAX,
        v.file_info_to_datas.len() < u32::MAX,
        v.file_datas.len() < u32::MAX,
    ensures
        remapped(v, p).wf(),
{
    let w = remapped(v, p);
    assert forall|i: int| 0 <= i < w.file_paths.len() implies (#[trigger] w.file_paths[i]).index
        < w.file_info_indices.len() by {
        if i != p {
            assert(w.file_paths[i] == v.file_paths[i]);
        }
    }
}

} // verus!
