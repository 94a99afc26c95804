use status_channel::channel::{ChannelError, ShmSpace};
use status_channel::codec::{
    game_status_of_bytes, game_status_to_bytes, server_status_of_bytes, server_status_to_bytes,
};
use status_channel::endpoints::{GameServerStatusWriter, ServerStatusReader, ServerStatusWriter};
use status_channel::{
    game_server_status_name, server_status_name, GameServerStatus, ServerStatus,
    GAME_SERVER_STATUS_LEN, SERVER_STATUS_LEN,
};

#[test]
fn channel_names() {
    assert_eq!(server_status_name(), "/server_status".to_owned());
    assert_eq!(game_server_status_name(), "/game_server_status".to_owned());
}

#[test]
fn default_records_are_zero() {
    assert_eq!(ServerStatus::default(), ServerStatus { user_count: 0 });
    assert_eq!(GameServerStatus::default(), GameServerStatus { user_count: 0 });
}

#[test]
fn server_status_encoding_is_little_endian() {
    let bytes = server_status_to_bytes(&ServerStatus { user_count: 5 });
    assert_eq!(bytes, vec![5, 0, 0, 0, 0, 0, 0, 0]);
    let bytes = server_status_to_bytes(&ServerStatus { user_count: 0x0102 });
    assert_eq!(bytes, vec![2, 1, 0, 0, 0, 0, 0, 0]);
}

#[test]
fn game_status_encoding_is_little_endian() {
    let bytes = game_status_to_bytes(&GameServerStatus { user_count: 1 });
    assert_eq!(bytes, vec![1, 0, 0, 0]);
    let bytes = game_status_to_bytes(&GameServerStatus { user_count: 0xA0B0C0D });
    assert_eq!(bytes, vec![0x0D, 0x0C, 0x0B, 0x0A]);
}

#[test]
fn codec_round_trips() {
    for count in [0usize, 1, 5, 6, usize::MAX] {
        let v = ServerStatus { user_count: count };
        let bytes = server_status_to_bytes(&v);
        assert_eq!(server_status_of_bytes(bytes.as_slice()), v);
    }
    for count in [0u32, 1, 77, u32::MAX] {
        let v = GameServerStatus { user_count: count };
        let bytes = game_status_to_bytes(&v);
        assert_eq!(game_status_of_bytes(bytes.as_slice()), v);
    }
}

// A writer publishes a 4-byte counter record on a fresh channel; a reader
// opens the same name and polls the published value back.
#[test]
fn scenario_writer_publishes_then_reader_polls() {
    let mut ns = ShmSpace::new();
    let name = "/X".to_owned();
    let writer = ns
        .create_writer_channel(&name, GAME_SERVER_STATUS_LEN)
        .expect("create should succeed");
    let record = game_status_to_bytes(&GameServerStatus { user_count: 1 });
    ns.publish_bytes(&writer, &record);

    let reader = ns
        .open_reader_channel(&name, GAME_SERVER_STATUS_LEN)
        .expect("open should succeed after create");
    let polled = ns.poll_bytes(&reader);
    assert_eq!(
        game_status_of_bytes(polled.as_slice()),
        GameServerStatus { user_count: 1 }
    );
}

// Two publishes back to back: a single later poll sees the second value.
#[test]
fn scenario_last_write_wins() {
    let mut ns = ShmSpace::new();
    let writer = ServerStatusWriter::try_new(&mut ns).expect("create should succeed");
    writer.write(&mut ns, ServerStatus { user_count: 5 });
    writer.write(&mut ns, ServerStatus { user_count: 6 });

    let reader = ServerStatusReader::try_new(&ns).expect("open should succeed");
    assert_eq!(reader.read(&ns), ServerStatus { user_count: 6 });
}

// Opening a reader with no prior writer fails with NotFound and creates
// nothing: a second attempt fails the same way.
#[test]
fn scenario_open_without_writer_fails() {
    let ns = ShmSpace::new();
    let name = "/Y".to_owned();
    let r = ns.open_reader_channel(&name, SERVER_STATUS_LEN);
    assert_eq!(r.err(), Some(ChannelError::NotFound));
    let r = ns.open_reader_channel(&name, SERVER_STATUS_LEN);
    assert_eq!(r.err(), Some(ChannelError::NotFound));
}

// Writer creates, publishes once, and closes (unmap + unlink): a later
// reader open for the same name reports the channel as gone.
#[test]
fn scenario_open_after_teardown_fails() {
    let mut ns = ShmSpace::new();
    let writer = ServerStatusWriter::try_new(&mut ns).expect("create should succeed");
    writer.write(&mut ns, ServerStatus { user_count: 3 });
    assert!(writer.close(&mut ns));
    let reader = ServerStatusReader::try_new(&ns);
    assert!(matches!(reader, Err(ChannelError::NotFound)));
}

// A reader that opened before any publish observes the all-zero record.
#[test]
fn reader_sees_zero_before_first_publish() {
    let mut ns = ShmSpace::new();
    let _writer = ServerStatusWriter::try_new(&mut ns).expect("create should succeed");
    let reader = ServerStatusReader::try_new(&ns).expect("open should succeed");
    assert_eq!(reader.read(&ns), ServerStatus::default());
}

// A round trip through the typed endpoints returns exactly what was
// published.
#[test]
fn publish_poll_round_trip() {
    let mut ns = ShmSpace::new();
    let writer = ServerStatusWriter::try_new(&mut ns).expect("create should succeed");
    writer.write(&mut ns, ServerStatus { user_count: 42 });
    let reader = ServerStatusReader::try_new(&ns).expect("open should succeed");
    assert_eq!(reader.read(&ns), ServerStatus { user_count: 42 });
}

// A mapping outlives the unlink: a reader that opened before the writer
// closed keeps polling the last published value.
#[test]
fn reader_mapping_survives_unlink() {
    let mut ns = ShmSpace::new();
    let writer = ServerStatusWriter::try_new(&mut ns).expect("create should succeed");
    writer.write(&mut ns, ServerStatus { user_count: 9 });
    let reader = ServerStatusReader::try_new(&ns).expect("open should succeed");
    assert!(writer.close(&mut ns));
    assert_eq!(reader.read(&ns), ServerStatus { user_count: 9 });
    reader.close();
}

#[test]
fn zero_size_is_rejected_before_any_effect() {
    let mut ns = ShmSpace::new();
    let name = "/X".to_owned();
    assert_eq!(
        ns.create_writer_channel(&name, 0).err(),
        Some(ChannelError::InvalidSize)
    );
    assert_eq!(
        ns.open_reader_channel(&name, 0).err(),
        Some(ChannelError::InvalidSize)
    );
    // Nothing was created by the rejected call.
    assert_eq!(
        ns.open_reader_channel(&name, 1).err(),
        Some(ChannelError::NotFound)
    );
}

#[test]
fn open_of_smaller_object_fails_to_map() {
    let mut ns = ShmSpace::new();
    let name = "/X".to_owned();
    ns.create_writer_channel(&name, 2).expect("create should succeed");
    assert_eq!(
        ns.open_reader_channel(&name, 4).err(),
        Some(ChannelError::MapFailed)
    );
}

// Reopening an existing name resizes it in place: the prefix is kept and
// any extension is zero-filled.
#[test]
fn reopen_resizes_and_keeps_prefix() {
    let mut ns = ShmSpace::new();
    let name = "/X".to_owned();
    let w = ns.create_writer_channel(&name, 4).expect("create should succeed");
    ns.publish_bytes(&w, &vec![1, 2, 3, 4]);

    let w = ns.create_writer_channel(&name, 8).expect("reopen should succeed");
    let r = ns.open_reader_channel(&name, 8).expect("open should succeed");
    assert_eq!(ns.poll_bytes(&r), vec![1, 2, 3, 4, 0, 0, 0, 0]);

    let _w = ns.create_writer_channel(&name, 2).expect("reopen should succeed");
    let r = ns.open_reader_channel(&name, 2).expect("open should succeed");
    assert_eq!(ns.poll_bytes(&r), vec![1, 2]);
    assert_eq!(w.len, 8);
}

// Two channels are independent: publishing on one never disturbs the
// other.
#[test]
fn channels_are_isolated() {
    let mut ns = ShmSpace::new();
    let server = ServerStatusWriter::try_new(&mut ns).expect("create should succeed");
    let game = GameServerStatusWriter::try_new(&mut ns).expect("create should succeed");
    server.write(&mut ns, ServerStatus { user_count: 11 });
    game.write(&mut ns, GameServerStatus { user_count: 2 });
    server.write(&mut ns, ServerStatus { user_count: 12 });

    let reader = ServerStatusReader::try_new(&ns).expect("open should succeed");
    assert_eq!(reader.read(&ns), ServerStatus { user_count: 12 });
    let game_reader = ns
        .open_reader_channel(&game_server_status_name(), GAME_SERVER_STATUS_LEN)
        .expect("open should succeed");
    let polled = ns.poll_bytes(&game_reader);
    assert_eq!(
        game_status_of_bytes(polled.as_slice()),
        GameServerStatus { user_count: 2 }
    );
}

// Closing a writer twice in spirit: after the unlink, a second unlink
// attempt reports the name as already gone instead of failing.
#[test]
fn second_unlink_is_reported_not_fatal() {
    let mut ns = ShmSpace::new();
    let w1 = ServerStatusWriter::try_new(&mut ns).expect("create should succeed");
    let w2 = ServerStatusWriter::try_new(&mut ns).expect("reopen should succeed");
    assert!(w1.close(&mut ns));
    assert!(!w2.close(&mut ns));
}

#[test]
fn error_descriptions() {
    assert_eq!(
        ChannelError::InvalidSize.describe(),
        "shared memory size must not be zero"
    );
    assert_eq!(
        ChannelError::CreateFailed.describe(),
        "failed to create the shared memory object"
    );
    assert_eq!(
        ChannelError::NotFound.describe(),
        "shared memory object not found (writer not running)"
    );
    assert_eq!(
        ChannelError::ResizeFailed.describe(),
        "failed to resize the shared memory object"
    );
    assert_eq!(
        ChannelError::MapFailed.describe(),
        "failed to map the shared memory object"
    );
}
