use fram_logger::appender::FramLog;
use fram_logger::chunk::{frame_transaction, plan_chunks, write_chunked};
use fram_logger::cursor::advance;
use fram_logger::fault::{
    capture_fault, location_record, message_record, u32_decimal, unknown_location_record,
};
use fram_logger::replay::{replay, ReplayError};
use fram_logger::sink::{enabled, level_label, sink_log, sink_record, Level};
use fram_logger::store::{BrokenStore, ByteStore, MemStore, StoreError};

const WINDOW: usize = 8192;
const STORE_SIZE: usize = 0x8000;
const FILL: u8 = 0xAB;

fn fresh_log() -> FramLog<MemStore> {
    FramLog::new(MemStore::new(STORE_SIZE, FILL))
}

#[test]
fn single_append_then_replay_round_trip() {
    let mut log = fresh_log();
    let text = "FRAM logger test\n";
    assert_eq!(text.len(), 17);
    assert_eq!(log.append(text), Ok(()));
    assert_eq!(log.position(), 17);
    assert_eq!(log.replay(), Ok(String::from(text)));
}

#[test]
fn single_append_layout_in_store() {
    let mut log = fresh_log();
    let text = "FRAM logger test\n";
    assert_eq!(log.append(text), Ok(()));
    let store = log.into_store();
    for (i, b) in text.as_bytes().iter().enumerate() {
        assert_eq!(store.byte_at(i), *b);
    }
    assert_eq!(store.byte_at(17), 0);
    assert_eq!(store.byte_at(18), FILL);
}

#[test]
fn single_append_is_one_chunk() {
    let text = "FRAM logger test\n";
    let plan = plan_chunks(0, text.as_bytes());
    assert_eq!(plan.len(), 1);
    assert_eq!(plan[0].0, 0);
    assert_eq!(plan[0].1.len(), 17);
    assert_eq!(plan[0].1.as_slice(), text.as_bytes());
}

#[test]
fn two_appends_share_one_terminator() {
    let mut log = fresh_log();
    assert_eq!(log.append("first "), Ok(()));
    assert_eq!(log.append("second"), Ok(()));
    assert_eq!(log.position(), 12);
    assert_eq!(log.replay(), Ok(String::from("first second")));
    let store = log.into_store();
    assert_eq!(store.byte_at(12), 0);
    for i in 0..12 {
        assert_ne!(store.byte_at(i), 0);
    }
}

#[test]
fn cursor_wraps_modulo_window() {
    assert_eq!(advance(0, 17), 17);
    assert_eq!(advance(8180, 20), 8);
    assert_eq!(advance(8191, 1), 0);
    assert_eq!(advance(0, 0), 0);
    assert_eq!(advance(100, 16384), 100);
    assert_eq!(advance(8191, 65535), ((8191u32 + 65535u32) % 8192) as u16);
}

#[test]
fn append_never_leaves_cursor_on_boundary() {
    let mut log = fresh_log();
    let record = vec![b'x'; 8191];
    assert_eq!(log.append_bytes(&record), Ok(()));
    assert_eq!(log.position(), 8191);
    assert_eq!(log.append_bytes(&[b'y']), Ok(()));
    assert_eq!(log.position(), 0);
}

#[test]
fn boundary_crossing_write_wraps_into_window() {
    let mut log = fresh_log();
    let lead = vec![b'x'; 8180];
    assert_eq!(log.append_bytes(&lead), Ok(()));
    assert_eq!(log.position(), 8180);
    let text = b"ABCDEFGHIJKLMNOPQRST";
    assert_eq!(text.len(), 20);
    assert_eq!(log.append_bytes(text), Ok(()));
    assert_eq!(log.position(), 8);
    let store = log.into_store();
    // head of the record up to the window boundary
    for i in 0..12 {
        assert_eq!(store.byte_at(8180 + i), text[i]);
    }
    // tail wrapped to the window start, terminator after it
    for i in 12..20 {
        assert_eq!(store.byte_at(i - 12), text[i]);
    }
    assert_eq!(store.byte_at(8), 0);
    // nothing lands beyond the window
    assert_eq!(store.byte_at(WINDOW), FILL);
    assert_eq!(store.byte_at(WINDOW + 7), FILL);
}

#[test]
fn chunk_plan_covers_payload_in_order() {
    let payload: Vec<u8> = (0..65u8).collect();
    let plan = plan_chunks(100, &payload);
    assert_eq!(plan.len(), 3);
    assert_eq!(plan[0].0, 100);
    assert_eq!(plan[1].0, 130);
    assert_eq!(plan[2].0, 160);
    assert_eq!(plan[0].1.len(), 30);
    assert_eq!(plan[1].1.len(), 30);
    assert_eq!(plan[2].1.len(), 5);
    let mut joined: Vec<u8> = Vec::new();
    for (_, piece) in &plan {
        joined.extend_from_slice(piece);
    }
    assert_eq!(joined, payload);
}

#[test]
fn chunk_plan_exact_multiple_and_empty() {
    let payload = vec![7u8; 60];
    let plan = plan_chunks(0, &payload);
    assert_eq!(plan.len(), 2);
    assert_eq!(plan[0].1.len(), 30);
    assert_eq!(plan[1].1.len(), 30);
    let empty: Vec<u8> = Vec::new();
    assert_eq!(plan_chunks(0, &empty).len(), 0);
}

#[test]
fn chunked_write_lands_at_consecutive_offsets() {
    let mut store = MemStore::new(STORE_SIZE, FILL);
    let payload: Vec<u8> = (0..65u8).collect();
    assert_eq!(write_chunked(&mut store, 1000, &payload), Ok(()));
    for i in 0..65 {
        assert_eq!(store.byte_at(1000 + i), i as u8);
    }
    assert_eq!(store.byte_at(999), FILL);
    assert_eq!(store.byte_at(1065), FILL);
}

#[test]
fn frame_carries_big_endian_offset_then_payload() {
    let frame = frame_transaction(0x1234, &[1, 2, 3]);
    assert_eq!(frame, vec![0x12, 0x34, 1, 2, 3]);
    let probe = frame_transaction(8180, &[]);
    assert_eq!(probe, vec![0x1F, 0xF4]);
}

#[test]
fn replay_without_terminator_yields_whole_window() {
    let mut store = MemStore::new(STORE_SIZE, b'A');
    let replayed = replay(&mut store).unwrap();
    assert_eq!(replayed.len(), WINDOW);
    assert!(replayed.bytes().all(|b| b == b'A'));
}

#[test]
fn replay_rejects_invalid_text() {
    let mut log = fresh_log();
    assert_eq!(log.append_bytes(&[0xFF, 0xFE]), Ok(()));
    assert_eq!(log.replay(), Err(ReplayError::Decode));
}

#[test]
fn replay_decodes_multibyte_text() {
    let mut log = fresh_log();
    let text = "température: 23°\n";
    assert_eq!(log.append(text), Ok(()));
    assert_eq!(log.replay(), Ok(String::from(text)));
}

#[test]
fn bus_failure_is_surfaced_and_cursor_still_advances() {
    let mut log = FramLog::new(BrokenStore::new(STORE_SIZE));
    assert_eq!(log.append("hello"), Err(StoreError::Bus));
    assert_eq!(log.position(), 5);
    assert_eq!(log.replay(), Err(ReplayError::Bus(StoreError::Bus)));
}

#[test]
fn chunked_write_failure_aborts() {
    let mut store = BrokenStore::new(STORE_SIZE);
    assert_eq!(write_chunked(&mut store, 0, &[1, 2, 3]), Err(StoreError::Bus));
}

#[test]
fn fault_capture_swallows_store_failure() {
    // Every write fails; capturing the fault must still return normally.
    let mut log = FramLog::new(BrokenStore::new(STORE_SIZE));
    capture_fault(&mut log, Some(("main.rs", 42)), "index out of bounds");
    let rec1 = location_record("main.rs", 42).len() as u16;
    let rec2 = message_record("index out of bounds").len() as u16;
    assert_eq!(log.position(), rec1 + rec2);
}

#[test]
fn fault_capture_writes_location_and_message() {
    let mut log = fresh_log();
    capture_fault(&mut log, Some(("src/main.rs", 31)), "array[3] is out of range");
    assert_eq!(
        log.replay(),
        Ok(String::from(
            "Panic occurred in file 'src/main.rs' at line 31\narray[3] is out of range\n"
        ))
    );
}

#[test]
fn fault_capture_without_location_uses_fixed_note() {
    let mut log = fresh_log();
    capture_fault(&mut log, None, "boom");
    assert_eq!(
        log.replay(),
        Ok(String::from(
            "Panic occurred but can't get location information...\nboom\n"
        ))
    );
}

#[test]
fn fault_record_layouts() {
    assert_eq!(
        location_record("main.rs", 42),
        b"Panic occurred in file 'main.rs' at line 42\n".to_vec()
    );
    assert_eq!(
        unknown_location_record(),
        b"Panic occurred but can't get location information...\n".to_vec()
    );
    assert_eq!(message_record("boom"), b"boom\n".to_vec());
}

#[test]
fn decimal_rendering() {
    assert_eq!(u32_decimal(0), b"0".to_vec());
    assert_eq!(u32_decimal(7), b"7".to_vec());
    assert_eq!(u32_decimal(42), b"42".to_vec());
    assert_eq!(u32_decimal(8192), b"8192".to_vec());
    assert_eq!(u32_decimal(u32::MAX), b"4294967295".to_vec());
}

#[test]
fn severity_threshold() {
    assert!(enabled(Level::Error, Level::Info));
    assert!(enabled(Level::Warn, Level::Info));
    assert!(enabled(Level::Info, Level::Info));
    assert!(!enabled(Level::Debug, Level::Info));
    assert!(!enabled(Level::Trace, Level::Info));
    assert_eq!(level_label(Level::Error), "ERROR");
    assert_eq!(level_label(Level::Trace), "TRACE");
}

#[test]
fn sink_formats_level_and_message() {
    assert_eq!(
        sink_record(Level::Info, "FRAM logger test"),
        b"INFO - FRAM logger test\n".to_vec()
    );
    assert_eq!(sink_record(Level::Error, "Error test"), b"ERROR - Error test\n".to_vec());
}

#[test]
fn sink_appends_enabled_records_only() {
    let mut log = fresh_log();
    assert_eq!(sink_log(&mut log, Level::Info, Level::Debug, "dropped"), Ok(()));
    assert_eq!(log.position(), 0);
    assert_eq!(sink_log(&mut log, Level::Info, Level::Info, "FRAM logger test"), Ok(()));
    assert_eq!(sink_log(&mut log, Level::Info, Level::Error, "Error test"), Ok(()));
    assert_eq!(
        log.replay(),
        Ok(String::from("INFO - FRAM logger test\nERROR - Error test\n"))
    );
}

#[test]
fn store_reads_back_what_was_written() {
    let mut store = MemStore::new(64, 0);
    assert_eq!(store.size(), 64);
    assert_eq!(store.write_tx(10, &[1, 2, 3]), Ok(()));
    assert_eq!(store.read_tx(9, 5), Ok(vec![0, 1, 2, 3, 0]));
    assert_eq!(store.byte_at(10), 1);
}

#[test]
fn empty_append_only_moves_terminator() {
    let mut log = fresh_log();
    assert_eq!(log.append(""), Ok(()));
    assert_eq!(log.position(), 0);
    assert_eq!(log.replay(), Ok(String::new()));
}
