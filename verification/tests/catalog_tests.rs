use known_folders::FolderId;
use known_folders::Guid;
use known_folders::FOLDER_COUNT;
use known_folders::folder_id_from_index;
use known_folders::folder_ids_table;
use known_folders::guid_of;
use known_folders::index_of;

#[test]
fn table_len_matches_variant_count() {
    let table = folder_ids_table();
    assert_eq!(table.len(), FOLDER_COUNT);
    assert_eq!(FOLDER_COUNT, 141);
}

#[test]
fn index_round_trip() {
    let table = folder_ids_table();
    for i in 0..FOLDER_COUNT {
        let id = folder_id_from_index(i).expect("every table position has a folder");
        assert_eq!(index_of(id), i);
        assert_eq!(table[i], guid_of(id));
    }
}

#[test]
fn out_of_range_index_has_no_folder() {
    assert!(folder_id_from_index(FOLDER_COUNT).is_none());
    assert!(folder_id_from_index(usize::MAX).is_none());
}

#[test]
fn first_entry_is_network_folder() {
    assert_eq!(folder_id_from_index(0), Some(FolderId::NetworkFolder));
    assert_eq!(index_of(FolderId::NetworkFolder), 0);
}

#[test]
fn documents_guid_value() {
    let g = guid_of(FolderId::Documents);
    let expected = Guid::new(
        0xFDD39AD0,
        0x238F,
        0x46AF,
        [0xAD, 0xB4, 0x6C, 0x85, 0x48, 0x03, 0x69, 0xC7],
    );
    assert_eq!(g, expected);
}

#[test]
fn desktop_guid_value() {
    let g = guid_of(FolderId::Desktop);
    let expected = Guid::new(
        0xB4BFCC3A,
        0xDB2C,
        0x424C,
        [0xB0, 0x29, 0x7F, 0xE9, 0x9A, 0x87, 0xC6, 0x41],
    );
    assert_eq!(g, expected);
}
