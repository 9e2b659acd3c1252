use nes_core::state::{check_save_header, save_header, SaveStateError, SAVE_STATE_VERSION};

#[test]
fn save_header_spells_magic_and_version() {
    let h = save_header();
    assert_eq!(h, vec![0x4E, 0x45, 0x53, 0x53, 1, 0]);
}

#[test]
fn header_check_accepts_its_own_header() {
    let h = save_header();
    assert_eq!(check_save_header(&h), Ok(SAVE_STATE_VERSION));
}

#[test]
fn header_check_rejects_foreign_and_short_blobs() {
    let mut h = save_header();
    h[0] = b'M';
    assert_eq!(check_save_header(&h), Err(SaveStateError::BadMagic));
    assert_eq!(check_save_header(&vec![0x4E, 0x45, 0x53]), Err(SaveStateError::BadMagic));
    assert_eq!(check_save_header(&Vec::new()), Err(SaveStateError::BadMagic));
}

#[test]
fn header_check_rejects_other_versions() {
    let mut h = save_header();
    h[4] = 2;
    assert_eq!(check_save_header(&h), Err(SaveStateError::IncompatibleVersion));
    h[4] = 1;
    h[5] = 1;
    assert_eq!(check_save_header(&h), Err(SaveStateError::IncompatibleVersion));
}
