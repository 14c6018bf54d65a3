use arcropolis::pipeline::{
    announce_target, apply_substitution, commit_substitution, commit_target, get_load_state,
    is_texture_extension, should_substitute, InflateFile, SharedSlot,
};
use arcropolis::tables::{
    ArcHeader, ArcTables, FileDataEntry, FileInfoEntry, FileInfoIndexEntry, FileInfoToDataEntry,
    FilePathEntry, LoadStateEntry,
};

fn small_tables() -> ArcTables {
    ArcTables {
        file_paths: vec![FilePathEntry { path_hash: 111, index: 0 }],
        file_info_indices: vec![FileInfoIndexEntry { dir_offset_index: 0, file_info_index: 0 }],
        file_infos: vec![
            FileInfoEntry {
                hash_index: 0,
                hash_index_2: 40,
                info_to_data_index: 0,
                is_redirect: false,
            },
            FileInfoEntry {
                hash_index: 0,
                hash_index_2: 41,
                info_to_data_index: 0,
                is_redirect: false,
            },
        ],
        file_info_to_datas: vec![FileInfoToDataEntry { file_data_index: 0 }],
        file_datas: vec![FileDataEntry { offset_in_folder: 0, comp_size: 1, decomp_size: 1 }],
        load_states: vec![
            LoadStateEntry { data: 0, ref_count: 0, is_used: false },
            LoadStateEntry { data: 0xBEEF, ref_count: 2, is_used: true },
        ],
        header: ArcHeader {
            file_info_index_count: 1,
            file_info_count: 2,
            file_info_to_data_count: 1,
            file_data_count: 1,
            load_state_count: 2,
        },
    }
}

#[test]
fn announce_reports_the_in_flight_slot() {
    let t = small_tables();
    assert_eq!(announce_target(&t, 0, 0), Some(40));
    assert_eq!(announce_target(&t, 0, 1), Some(41));
    assert_eq!(announce_target(&t, 1, 0), Some(41));
    // An index outside the table suppresses substitution.
    assert_eq!(announce_target(&t, 1, 1), None);
    assert_eq!(announce_target(&t, u32::MAX, u32::MAX), None);
}

#[test]
fn slot_rendezvous_round_trips_one_value() {
    let slot = SharedSlot::new();
    assert_eq!(slot.load(), None);
    slot.store(Some(17));
    assert_eq!(slot.load(), Some(17));
    slot.store(None);
    assert_eq!(slot.load(), None);
}

#[test]
fn commit_ignores_empty_slot_and_directory_slot_zero() {
    assert_eq!(commit_target(None, false), None);
    assert_eq!(commit_target(None, true), None);
    assert_eq!(commit_target(Some(0), false), Some(0));
    assert_eq!(commit_target(Some(0), true), None);
    assert_eq!(commit_target(Some(3), true), Some(3));
    assert_eq!(commit_target(Some(3), false), Some(3));
}

#[test]
fn load_state_lookup_is_bounds_checked() {
    let t = small_tables();
    assert_eq!(
        get_load_state(&t, 1),
        Some(LoadStateEntry { data: 0xBEEF, ref_count: 2, is_used: true })
    );
    assert_eq!(get_load_state(&t, 2), None);
}

#[test]
fn substitution_waits_for_a_resident_buffer() {
    assert!(!should_substitute(&LoadStateEntry { data: 0, ref_count: 0, is_used: false }));
    assert!(should_substitute(&LoadStateEntry { data: 0xBEEF, ref_count: 0, is_used: false }));
}

#[test]
fn texture_extension_is_recognised_by_hash() {
    assert!(is_texture_extension(smash_arc::hash40("nutexb").as_u64()));
    assert!(!is_texture_extension(smash_arc::hash40("numshb").as_u64()));
    assert!(!is_texture_extension(0));
}

#[test]
fn apply_substitution_dispatches_on_format() {
    let mut plain = vec![9u8; 4];
    apply_substitution(&mut plain, &vec![1u8, 2], false);
    assert_eq!(plain, vec![1, 2, 9, 9]);

    let mut texture = vec![9u8; 180];
    let replacement: Vec<u8> = (0..178).map(|i| (i % 251) as u8).collect();
    apply_substitution(&mut texture, &replacement, true);
    // Replacement body, untouched middle, replacement footer.
    assert_eq!(&texture[..2], &replacement[..2]);
    assert_eq!(texture[2], 9);
    assert_eq!(texture[3], 9);
    assert_eq!(&texture[4..], &replacement[2..]);
}

#[test]
fn commit_step_substitutes_only_when_due() {
    let resident = LoadStateEntry { data: 0xBEEF, ref_count: 1, is_used: true };
    let empty = LoadStateEntry { data: 0, ref_count: 0, is_used: false };
    let replacement = vec![1u8, 2];

    let mut buffer = vec![9u8; 4];
    assert!(commit_substitution(Some(5), false, &resident, false, &mut buffer, &replacement));
    assert_eq!(buffer, vec![1, 2, 9, 9]);

    // No buffer resident for the slot: the step declines.
    let mut buffer = vec![9u8; 4];
    assert!(!commit_substitution(Some(5), false, &empty, false, &mut buffer, &replacement));
    assert_eq!(buffer, vec![9, 9, 9, 9]);

    // Nothing pending, or slot zero at the directory call site: declined.
    let mut buffer = vec![9u8; 4];
    assert!(!commit_substitution(None, false, &resident, false, &mut buffer, &replacement));
    assert!(!commit_substitution(Some(0), true, &resident, false, &mut buffer, &replacement));
    assert_eq!(buffer, vec![9, 9, 9, 9]);
}

#[test]
fn inflate_descriptor_carries_address_and_size() {
    let f = InflateFile { content: 0x7100A00000, size: 0x400 };
    assert_eq!(f.content, 0x7100A00000);
    assert_eq!(f.size, 0x400);
}
