use unvet::errors::AppError;
use unvet::freetrack::{
    classify_mutex_wait, freetrack_connect_error, freetrack_table_for_game_id, infer_game_id_from_process_names,
    mutex_wait_error, parse_freetrack_table_from_ftn_id, parse_hex_nibble, wide_null, ConnectStage,
    FreeTrackHeader, FreeTrackSession, MutexWait, ATS_GAME_ID, ETS2_GAME_ID, WAIT_ABANDONED, WAIT_OBJECT_0,
    WAIT_TIMEOUT,
};

const ETS2_FTN_ID: &str = "00721B4BFF8B3EA3296600";
const ATS_FTN_ID: &str = "0243F6F5140400655ED300";

#[test]
fn parse_freetrack_table_follows_opentrack_order() {
    let ets2 = parse_freetrack_table_from_ftn_id(ETS2_FTN_ID).expect("parse ETS2 FTN_ID");
    let ats = parse_freetrack_table_from_ftn_id(ATS_FTN_ID).expect("parse ATS FTN_ID");

    assert_eq!(ets2, [0x8B, 0xFF, 0x4B, 0x1B, 0x66, 0x29, 0xA3, 0x3E]);
    assert_eq!(ats, [0x04, 0x14, 0xF5, 0xF6, 0xD3, 0x5E, 0x65, 0x00]);
}

#[test]
fn freetrack_table_for_supported_trucksim_game_ids() {
    assert_eq!(freetrack_table_for_game_id(ETS2_GAME_ID), [0; 8]);
    assert_eq!(freetrack_table_for_game_id(ATS_GAME_ID), [0; 8]);
    assert_eq!(freetrack_table_for_game_id(0), [0; 8]);
}

#[test]
fn infer_game_id_prefers_ats_then_ets2() {
    assert_eq!(infer_game_id_from_process_names(&["notepad.exe", "eurotrucks2.exe"]), Some(ETS2_GAME_ID));
    assert_eq!(infer_game_id_from_process_names(&["eurotrucks2.exe", "amtrucks.exe"]), Some(ATS_GAME_ID));
    assert_eq!(infer_game_id_from_process_names(&["cmd.exe"]), None);
}

#[test]
fn infer_game_id_trims_and_ignores_case_and_directories() {
    assert_eq!(
        infer_game_id_from_process_names(&["  C:\\Games\\ATS\\AMTRUCKS.EXE  "]),
        Some(ATS_GAME_ID)
    );
    assert_eq!(infer_game_id_from_process_names(&["EuroTrucks2.exe\t"]), Some(ETS2_GAME_ID));
    assert_eq!(infer_game_id_from_process_names(&["eurotrucks2.exe.bak"]), None);
    assert_eq!(infer_game_id_from_process_names(&[]), None);
}

#[test]
fn hex_nibbles_cover_both_cases() {
    assert_eq!(parse_hex_nibble(b'0'), Some(0));
    assert_eq!(parse_hex_nibble(b'9'), Some(9));
    assert_eq!(parse_hex_nibble(b'a'), Some(10));
    assert_eq!(parse_hex_nibble(b'F'), Some(15));
    assert_eq!(parse_hex_nibble(b'g'), None);
    assert_eq!(parse_hex_nibble(b' '), None);
}

#[test]
fn ftn_id_must_be_22_hex_digits() {
    assert_eq!(parse_freetrack_table_from_ftn_id("00721B4BFF8B3EA32966"), None);
    assert_eq!(parse_freetrack_table_from_ftn_id("00721B4BFF8B3EA3296600A"), None);
    assert_eq!(parse_freetrack_table_from_ftn_id("00721B4BFF8B3EA32966G0"), None);
    assert_eq!(
        parse_freetrack_table_from_ftn_id("00721b4bff8b3ea3296600"),
        Some([0x8B, 0xFF, 0x4B, 0x1B, 0x66, 0x29, 0xA3, 0x3E])
    );
}

#[test]
fn wide_null_encodes_utf16_with_terminator() {
    assert_eq!(wide_null("FT_SharedMem"), "FT_SharedMem".encode_utf16().chain([0]).collect::<Vec<u16>>());
    assert_eq!(wide_null(""), vec![0]);
    assert_eq!(wide_null("é😀"), vec![0xE9, 0xD83D, 0xDE00, 0]);
}

fn header(game_id: i32, data_id: u32) -> FreeTrackHeader {
    FreeTrackHeader { data_id, game_id, table: [7; 8], game_id2: 99 }
}

#[test]
fn handshake_resets_on_new_game_and_counts_otherwise() {
    let mut session = FreeTrackSession::new();
    assert_eq!(session.last_game_id, i32::MIN);

    let mut h = header(0, 41);
    assert!(FreeTrackSession::wants_inferred_game_id(&h));
    session.publish(&mut h, Some(ETS2_GAME_ID));
    assert_eq!(h.game_id, ETS2_GAME_ID);
    assert_eq!(h.game_id2, ETS2_GAME_ID);
    assert_eq!(h.table, [0; 8]);
    assert_eq!(h.data_id, 0);
    assert_eq!(session.last_game_id, ETS2_GAME_ID);

    session.publish(&mut h, None);
    assert_eq!(h.data_id, 1);
    assert_eq!(h.game_id, ETS2_GAME_ID);

    h.data_id = u32::MAX;
    session.publish(&mut h, None);
    assert_eq!(h.data_id, 0);

    h.game_id = ATS_GAME_ID;
    h.data_id = 5;
    session.publish(&mut h, Some(ETS2_GAME_ID));
    assert_eq!(h.game_id, ATS_GAME_ID);
    assert_eq!(h.game_id2, ATS_GAME_ID);
    assert_eq!(h.data_id, 0);
}

#[test]
fn handshake_without_game_keeps_zero_id() {
    let mut session = FreeTrackSession::new();
    let mut h = header(0, 3);
    session.publish(&mut h, None);
    assert_eq!(h.game_id, 0);
    assert_eq!(h.game_id2, 0);
    assert_eq!(h.data_id, 0);
    assert_eq!(session.last_game_id, 0);
}

#[test]
fn mutex_wait_outcomes_and_messages() {
    assert_eq!(classify_mutex_wait(WAIT_OBJECT_0), MutexWait::Acquired);
    assert_eq!(classify_mutex_wait(WAIT_ABANDONED), MutexWait::Acquired);
    assert_eq!(classify_mutex_wait(WAIT_TIMEOUT), MutexWait::TimedOut);
    assert_eq!(classify_mutex_wait(0xFFFF_FFFF), MutexWait::Failed);

    assert!(mutex_wait_error(WAIT_OBJECT_0, 5).is_none());
    match mutex_wait_error(WAIT_TIMEOUT, 5) {
        Some(AppError::InvalidState(m)) => {
            assert_eq!(m, "timed out while waiting for FreeTrack shared memory mutex")
        },
        other => panic!("unexpected {:?}", other),
    }
    match mutex_wait_error(4294967295, 6) {
        Some(AppError::InvalidState(m)) => {
            assert_eq!(m, "failed waiting for FreeTrack mutex (result=4294967295, GetLastError=6)")
        },
        other => panic!("unexpected {:?}", other),
    }
}

#[test]
fn connect_errors_name_the_failed_step() {
    match freetrack_connect_error(ConnectStage::MapView, 5) {
        AppError::InvalidState(m) => assert_eq!(m, "failed to map FreeTrack shared memory (GetLastError=5)"),
        other => panic!("unexpected {:?}", other),
    }
    match freetrack_connect_error(ConnectStage::CreateMutex, 0) {
        AppError::InvalidState(m) => assert_eq!(m, "failed to create/open FreeTrack mutex (GetLastError=0)"),
        other => panic!("unexpected {:?}", other),
    }
}
