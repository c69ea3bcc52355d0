use badpiggies_editor::crypto::{decrypt_save_file, encrypt_save_file, SaveFileType};
use badpiggies_editor::diagnostics::error::{AppError, AppErrorMessage};

#[test]
fn save_files_round_trip_through_encryption() {
    let xml = b"<?xml version=\"1.0\"?><data><int key=\"a\">1</int></data>";
    for ft in [SaveFileType::Progress, SaveFileType::Contraption, SaveFileType::Achievements] {
        let enc = encrypt_save_file(&ft, xml).unwrap();
        assert_ne!(&enc[..], &xml[..]);
        let dec = decrypt_save_file(&ft, &enc).unwrap();
        assert_eq!(&dec[..], &xml[..]);
    }
}

#[test]
fn sha1_prefixed_files_are_checked() {
    let enc = encrypt_save_file(&SaveFileType::Progress, b"hello").unwrap();
    assert_eq!(enc.len(), 20 + 16);
    let mut tampered = enc.clone();
    tampered[0] ^= 1;
    match decrypt_save_file(&SaveFileType::Progress, &tampered) {
        Err(AppError::InvalidData(AppErrorMessage::Key(k))) => assert_eq!(k, "error_sha1_mismatch"),
        other => panic!("unexpected {other:?}"),
    }
    match decrypt_save_file(&SaveFileType::Achievements, &enc[..10]) {
        Err(AppError::InvalidData(AppErrorMessage::Key(k))) => {
            assert_eq!(k, "error_file_too_short_sha1")
        }
        other => panic!("unexpected {other:?}"),
    }
    match decrypt_save_file(&SaveFileType::Contraption, &enc[..7]) {
        Err(AppError::Crypto(AppErrorMessage::Key1 { key, .. })) => {
            assert_eq!(key, "error_aes_decrypt_failed")
        }
        other => panic!("unexpected {other:?}"),
    }
}

#[test]
fn contraption_ciphertext_has_no_prefix_and_whole_blocks() {
    let enc = encrypt_save_file(&SaveFileType::Contraption, &[7u8; 16]).unwrap();
    assert_eq!(enc.len(), 32);
}

#[test]
fn file_types_are_detected_from_names() {
    assert_eq!(SaveFileType::detect("Progress.dat"), Some(SaveFileType::Progress));
    assert_eq!(SaveFileType::detect("my_PROGRESS_backup.DAT"), Some(SaveFileType::Progress));
    assert_eq!(SaveFileType::detect("ABC.contraption"), Some(SaveFileType::Contraption));
    assert_eq!(SaveFileType::detect("Achievements.xml"), Some(SaveFileType::Achievements));
    assert_eq!(SaveFileType::detect("notes.xml"), None);
    assert_eq!(SaveFileType::Progress.localized_label(), "save_file_type_progress");
}

#[test]
fn ciphertext_length_is_the_padded_message_and_partial_blocks_fail() {
    for n in [0usize, 1, 15, 16, 17, 40] {
        let msg = vec![b'x'; n];
        let c = encrypt_save_file(&SaveFileType::Contraption, &msg).unwrap();
        assert_eq!(c.len(), (n / 16 + 1) * 16);
        let p = encrypt_save_file(&SaveFileType::Progress, &msg).unwrap();
        assert_eq!(p.len(), (n / 16 + 1) * 16 + 20);
        // a ciphertext cut inside a block does not decrypt
        let cut = &c[..c.len() - 1];
        assert!(matches!(
            decrypt_save_file(&SaveFileType::Contraption, cut),
            Err(AppError::Crypto(AppErrorMessage::Key1 { key: "error_aes_decrypt_failed", .. }))
        ));
    }
}
