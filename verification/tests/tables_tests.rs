use arcropolis::tables::{
    expand_table, find_file_info_index_in_dir_info, unshared, unshared_by_path, ArcHeader,
    ArcTables, DirInfo, FileDataEntry, FileInfoEntry, FileInfoIndexEntry, FileInfoToDataEntry,
    FilePathEntry, LoadStateEntry, RemapError,
};

/// Three paths sharing the single `FileInfoIndices` slot, the shape the
/// remapper exists to break.
fn shared_tables() -> ArcTables {
    ArcTables {
        file_paths: vec![
            FilePathEntry { path_hash: 111, index: 0 },
            FilePathEntry { path_hash: 222, index: 0 },
            FilePathEntry { path_hash: 333, index: 0 },
        ],
        file_info_indices: vec![FileInfoIndexEntry { dir_offset_index: 7, file_info_index: 0 }],
        file_infos: vec![FileInfoEntry {
            hash_index: 1,
            hash_index_2: 0,
            info_to_data_index: 0,
            is_redirect: false,
        }],
        file_info_to_datas: vec![FileInfoToDataEntry { file_data_index: 0 }],
        file_datas: vec![FileDataEntry { offset_in_folder: 64, comp_size: 100, decomp_size: 200 }],
        load_states: vec![LoadStateEntry { data: 0xDEAD, ref_count: 1, is_used: true }],
        header: ArcHeader {
            file_info_index_count: 1,
            file_info_count: 1,
            file_info_to_data_count: 1,
            file_data_count: 1,
            load_state_count: 1,
        },
    }
}

#[test]
fn remap_gives_target_a_fresh_slot() {
    let mut t = shared_tables();
    let r = unshared(&mut t, 222);
    assert_eq!(r, Ok(1));
    // The target now points at the appended slot.
    assert_eq!(t.file_paths[1].index, 1);
    // The appended chain is fully linked and flagged redirectable.
    assert_eq!(t.file_info_indices[1].file_info_index, 1);
    assert_eq!(t.file_info_indices[1].dir_offset_index, 7);
    assert_eq!(t.file_infos[1].info_to_data_index, 1);
    assert_eq!(t.file_infos[1].hash_index_2, 1);
    assert!(t.file_infos[1].is_redirect);
    assert_eq!(t.file_info_to_datas[1].file_data_index, 1);
    // The appended physical record and load state duplicate the originals.
    assert_eq!(t.file_datas[1], t.file_datas[0]);
    assert_eq!(t.load_states[1], t.load_states[0]);
}

#[test]
fn remap_grows_each_table_by_one_and_header_counts_match() {
    let mut t = shared_tables();
    unshared(&mut t, 222).unwrap();
    assert_eq!(t.file_info_indices.len(), 2);
    assert_eq!(t.file_infos.len(), 2);
    assert_eq!(t.file_info_to_datas.len(), 2);
    assert_eq!(t.file_datas.len(), 2);
    assert_eq!(t.load_states.len(), 2);
    assert_eq!(t.header.file_info_index_count, 2);
    assert_eq!(t.header.file_info_count, 2);
    assert_eq!(t.header.file_info_to_data_count, 2);
    assert_eq!(t.header.file_data_count, 2);
    assert_eq!(t.header.load_state_count, 2);
}

#[test]
fn remap_leaves_sibling_paths_on_the_shared_slot() {
    let mut t = shared_tables();
    unshared(&mut t, 222).unwrap();
    // Both untouched siblings still return the pre-remap shared slot, which
    // still resolves through the original entries to the original data.
    assert_eq!(t.file_paths[0], FilePathEntry { path_hash: 111, index: 0 });
    assert_eq!(t.file_paths[2], FilePathEntry { path_hash: 333, index: 0 });
    assert_ne!(t.file_paths[0].index, t.file_paths[1].index);
    assert_ne!(t.file_paths[2].index, t.file_paths[1].index);
    assert_eq!(t.file_info_indices[0].file_info_index, 0);
    assert_eq!(
        t.file_datas[0],
        FileDataEntry { offset_in_folder: 64, comp_size: 100, decomp_size: 200 }
    );
}

#[test]
fn remap_of_unknown_hash_leaves_container_untouched() {
    let mut t = shared_tables();
    let r = unshared(&mut t, 999);
    assert_eq!(r, Err(RemapError::UnknownPathHash));
    assert_eq!(t.file_paths.len(), 3);
    assert_eq!(t.file_paths[1], FilePathEntry { path_hash: 222, index: 0 });
    assert_eq!(t.file_info_indices.len(), 1);
    assert_eq!(t.file_infos.len(), 1);
    assert_eq!(t.header.file_info_index_count, 1);
}

#[test]
fn remap_by_path_resolves_the_archive_hash() {
    let path = "fighter/marth/model/body/c00/model.numshb";
    let hash = smash_arc::hash40(path).as_u64();
    let mut t = shared_tables();
    t.file_paths[1].path_hash = hash;
    let r = unshared_by_path(&mut t, path);
    assert_eq!(r, Ok(1));
    assert_eq!(t.file_paths[1].index, 1);
    // A path the table does not carry is rejected.
    let mut u = shared_tables();
    assert_eq!(
        unshared_by_path(&mut u, "fighter/marth/model/body/c01/model.numshb"),
        Err(RemapError::UnknownPathHash)
    );
}

#[test]
fn dir_scan_finds_the_entry_pointing_back_at_the_path() {
    let mut t = shared_tables();
    t.file_infos = vec![
        FileInfoEntry { hash_index: 0, hash_index_2: 9, info_to_data_index: 0, is_redirect: false },
        FileInfoEntry { hash_index: 0, hash_index_2: 4, info_to_data_index: 0, is_redirect: false },
        FileInfoEntry { hash_index: 0, hash_index_2: 5, info_to_data_index: 0, is_redirect: false },
    ];
    t.header.file_info_count = 3;
    let path = FilePathEntry { path_hash: 111, index: 5 };
    let dir = DirInfo { file_info_start_index: 1, file_info_count: 2 };
    assert_eq!(find_file_info_index_in_dir_info(&t, &path, &dir), Some(2));
    // The first entry points elsewhere and entry zero is outside the range.
    let other = FilePathEntry { path_hash: 111, index: 9 };
    assert_eq!(find_file_info_index_in_dir_info(&t, &other, &dir), None);
}

#[test]
fn expand_table_copies_every_entry() {
    let source = [3u64, 1, 4, 1, 5];
    let copy = expand_table(&source);
    assert_eq!(copy, vec![3u64, 1, 4, 1, 5]);
    let empty: [u32; 0] = [];
    assert_eq!(expand_table(&empty), Vec::<u32>::new());
}
