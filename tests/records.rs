use fo_client_format::codec::Field;
use fo_client_format::save_data::{COUNT_OFFSET, DATA_EXT_SIZE, DATA_SIZE, HEADER_SIZE, MAX_EVENTS};
use fo_client_format::{
    Array, Bool, ClientSaveData, CrTimeEvent, CritData, CritDataExt, NpcBagItem, ReadError,
};

fn event(k: u32) -> CrTimeEvent {
    CrTimeEvent {
        FuncNum: k,
        Rate: k * 10,
        NextTime: 1000 + k,
        Identifier: -(k as i32),
    }
}

fn sample_record(events: u32) -> ClientSaveData {
    let mut data = CritData::blank();
    data.Id = 0x0102_0304;
    data.HexX = 0xABCD;
    data.Reserved0 = -1;
    data.Multihex = -2;
    data.Params[0] = -2;
    data.Params[999] = 0x7FFF_FFFF;
    data.Lexems[127] = 65;
    data.ClientToDelete = Bool::from(true);
    data.Bag[49] = NpcBagItem {
        ItemPid: 9,
        MinCnt: 1,
        MaxCnt: 2,
        ItemSlot: 3,
    };
    data.Reserved22[99] = 0xDEAD_BEEF;
    let mut data_ext = CritDataExt::blank();
    data_ext.Reserved23[0] = 5;
    data_ext.GlobalMapFog[2499] = 0xFF;
    data_ext.LocationsCount = 2;
    data_ext.Reserved26[28] = 0x1122_3344;
    let mut password_hash = [0u8; 32];
    for (i, b) in password_hash.iter_mut().enumerate() {
        *b = i as u8;
    }
    ClientSaveData {
        signature: [70, 79, 0, 2],
        password_hash,
        data: Box::new(data),
        data_ext: Box::new(data_ext),
        time_events: (0..events).map(event).collect(),
    }
}

fn with_count(count: u32, event_bytes: usize) -> Vec<u8> {
    let mut bytes = sample_record(0).write();
    bytes[COUNT_OFFSET..COUNT_OFFSET + 4].copy_from_slice(&count.to_le_bytes());
    bytes.resize(HEADER_SIZE + event_bytes, 0);
    bytes
}

#[test]
fn sizeof() {
    let mut out = Vec::new();
    CritData::blank().put(&mut out);
    assert_eq!(out.len(), DATA_SIZE);
    let mut out = Vec::new();
    CritDataExt::blank().put(&mut out);
    assert_eq!(out.len(), DATA_EXT_SIZE);
}

#[test]
fn read_unsafe_write_hybrid() {
    let vec = sample_record(3).write();
    let client = ClientSaveData::read_unsafe(&vec).unwrap();
    let vec2 = client.write();
    assert_eq!(vec, vec2);
}

#[test]
fn read_unsafe_read_bincode() {
    let vec = sample_record(2).write();
    let client = ClientSaveData::read_unsafe(&vec).unwrap();
    let client2 = ClientSaveData::read_bincode(&vec).unwrap();
    let client3 = ClientSaveData::read_bytemuck(&vec).unwrap();
    assert_eq!(format!("{client:?}"), format!("{client2:?}"));
    assert_eq!(format!("{client2:?}"), format!("{client3:?}"));
    assert_eq!(vec, client.write());
    assert_eq!(vec, client2.write());
    assert_eq!(vec, client3.write());
    assert_eq!(vec, client.write_bytemuck());
    assert_eq!(vec, client2.write_bytemuck());
    assert_eq!(vec, client3.write_bytemuck());
}

#[test]
fn write_length_matches_layout() {
    for n in [0u32, 1, 5] {
        let bytes = sample_record(n).write();
        assert_eq!(bytes.len(), 4 + 32 + 7404 + 6944 + 4 + 16 * n as usize);
    }
}

#[test]
fn write_puts_fields_at_their_offsets() {
    let bytes = sample_record(1).write();
    assert_eq!(&bytes[0..4], &[70, 79, 0, 2]);
    assert_eq!(bytes[4], 0);
    assert_eq!(bytes[35], 31);
    assert_eq!(&bytes[36..40], &[4, 3, 2, 1]);
    assert_eq!(&bytes[40..42], &[0xCD, 0xAB]);
    assert_eq!(bytes[55], 0xFF);
    assert_eq!(&bytes[74..76], &[0xFE, 0xFF]);
    assert_eq!(&bytes[108..112], &[0xFE, 0xFF, 0xFF, 0xFF]);
    assert_eq!(&bytes[108 + 4 * 999..108 + 4000], &[0xFF, 0xFF, 0xFF, 0x7F]);
    assert_eq!(bytes[4148 + 127], 65);
    assert_eq!(bytes[4308], 1);
    assert_eq!(&bytes[6240 + 49 * 16..6240 + 50 * 16], &[9, 0, 0, 0, 1, 0, 0, 0, 2, 0, 0, 0, 3, 0, 0, 0]);
    assert_eq!(&bytes[7040 + 396..7440], &[0xEF, 0xBE, 0xAD, 0xDE]);
    assert_eq!(&bytes[7440..7444], &[5, 0, 0, 0]);
    assert_eq!(bytes[7480 + 2499], 0xFF);
    assert_eq!(&bytes[9982..9984], &[2, 0]);
    assert_eq!(&bytes[14268 + 28 * 4..14384], &[0x44, 0x33, 0x22, 0x11]);
    assert_eq!(&bytes[14384..14388], &[1, 0, 0, 0]);
    assert_eq!(
        &bytes[14388..14404],
        &[0, 0, 0, 0, 0, 0, 0, 0, 0xE8, 0x03, 0, 0, 0, 0, 0, 0]
    );
}

#[test]
fn count_bytes_follow_event_list() {
    let mut rec = sample_record(0);
    rec.time_events = vec![event(1), event(2), event(3)];
    let bytes = rec.write();
    assert_eq!(&bytes[COUNT_OFFSET..COUNT_OFFSET + 4], &[3, 0, 0, 0]);
    rec.time_events.pop();
    let bytes = rec.write();
    assert_eq!(&bytes[COUNT_OFFSET..COUNT_OFFSET + 4], &[2, 0, 0, 0]);
    assert_eq!(bytes.len(), HEADER_SIZE + 32);
}

#[test]
fn read_recovers_fields() {
    let bytes = sample_record(2).write();
    let rec = ClientSaveData::read(&bytes).unwrap();
    assert_eq!(rec.data.Id, 0x0102_0304);
    assert_eq!(rec.data.HexX, 0xABCD);
    assert_eq!(rec.data.Reserved0, -1);
    assert_eq!(rec.data.Multihex, -2);
    assert_eq!(rec.data.Params[0], -2);
    assert_eq!(rec.data.Params[999], 0x7FFF_FFFF);
    assert!(bool::from(rec.data.ClientToDelete));
    assert!(!bool::from(rec.data.IsDataExt));
    assert_eq!(rec.data.Bag[49].ItemSlot, 3);
    assert_eq!(rec.data_ext.LocationsCount, 2);
    assert_eq!(rec.data_ext.Reserved26[28], 0x1122_3344);
    assert_eq!(rec.time_events.len(), 2);
    assert_eq!(rec.time_events[1].Identifier, -1);
    assert_eq!(rec.time_events[1].NextTime, 1001);
    assert_eq!(rec.password_hash[31], 31);
}

#[test]
fn round_trip_is_byte_exact() {
    for n in [0u32, 1, 7] {
        let bytes = sample_record(n).write();
        let rec = ClientSaveData::read(&bytes).unwrap();
        assert_eq!(rec.write(), bytes);
    }
}

#[test]
fn nonzero_flag_byte_reads_true_and_is_kept() {
    let mut bytes = sample_record(0).write();
    bytes[4308] = 7;
    let rec = ClientSaveData::read(&bytes).unwrap();
    assert!(bool::from(rec.data.ClientToDelete));
    assert_eq!(rec.data.ClientToDelete.0, 7);
    assert_eq!(rec.write(), bytes);
}

#[test]
fn flag_conversions() {
    assert_eq!(Bool::from(true).0, 1);
    assert_eq!(Bool::from(false).0, 0);
    assert!(bool::from(Bool(2)));
    assert!(!bool::from(Bool(0)));
    assert_eq!(Bool::default().0, 0);
}

#[test]
fn wrong_signature_is_refused() {
    let good = sample_record(1).write();
    for i in 0..4 {
        let mut bytes = good.clone();
        bytes[i] ^= 0x01;
        assert_eq!(ClientSaveData::read(&bytes).unwrap_err(), ReadError::InvalidSignature);
    }
    assert_eq!(
        ClientSaveData::read(&[70, 79, 0, 3]).unwrap_err(),
        ReadError::InvalidSignature
    );
    assert_eq!(
        ClientSaveData::read(&[0, 0, 0, 0, 1, 2, 3]).unwrap_err(),
        ReadError::InvalidSignature
    );
}

#[test]
fn short_inputs_are_truncated() {
    assert_eq!(ClientSaveData::read(&[]).unwrap_err(), ReadError::TruncatedInput);
    assert_eq!(ClientSaveData::read(&[70, 79]).unwrap_err(), ReadError::TruncatedInput);
    assert_eq!(ClientSaveData::read(&[1, 2, 3]).unwrap_err(), ReadError::TruncatedInput);
}

#[test]
fn every_prefix_is_truncated() {
    let good = sample_record(2).write();
    let cuts = [0, 1, 3, 4, 36, 100, 7440, HEADER_SIZE - 1, HEADER_SIZE, HEADER_SIZE + 15, good.len() - 1];
    for n in cuts {
        assert_eq!(
            ClientSaveData::read(&good[..n]).unwrap_err(),
            ReadError::TruncatedInput,
            "prefix of {n} bytes"
        );
    }
}

#[test]
fn count_above_limit_is_refused() {
    let bytes = with_count(0x10000, 0x10000 * 16);
    assert_eq!(ClientSaveData::read(&bytes).unwrap_err(), ReadError::CountOutOfRange);
    let bytes = with_count(u32::MAX, 0);
    assert_eq!(ClientSaveData::read(&bytes).unwrap_err(), ReadError::CountOutOfRange);
}

#[test]
fn count_at_limit_is_accepted() {
    let bytes = with_count(MAX_EVENTS, MAX_EVENTS as usize * 16);
    let rec = ClientSaveData::read(&bytes).unwrap();
    assert_eq!(rec.time_events.len(), 0xFFFF);
    assert_eq!(rec.write(), bytes);
}

#[test]
fn missing_events_are_truncated() {
    let bytes = with_count(3, 47);
    assert_eq!(ClientSaveData::read(&bytes).unwrap_err(), ReadError::TruncatedInput);
}

#[test]
fn extra_byte_is_trailing_data() {
    for n in [0u32, 2] {
        let mut bytes = sample_record(n).write();
        bytes.push(0);
        assert_eq!(ClientSaveData::read(&bytes).unwrap_err(), ReadError::TrailingData);
    }
    let bytes = with_count(1, 17);
    assert_eq!(ClientSaveData::read(&bytes).unwrap_err(), ReadError::TrailingData);
}

#[test]
fn array_wrapper_reads_through() {
    let a = Array([1u16, 2, 3]);
    assert_eq!(a.len(), 3);
    assert_eq!(a[2], 3);
    let mut out = Vec::new();
    a.put(&mut out);
    assert_eq!(out, vec![1, 0, 2, 0, 3, 0]);
}

#[test]
fn read_after_write_gives_same_record() {
    let rec = sample_record(4);
    let back = ClientSaveData::read(&rec.write()).unwrap();
    assert_eq!(format!("{back:?}"), format!("{rec:?}"));
}

#[test]
fn record_without_signature_does_not_read_back() {
    let mut rec = sample_record(1);
    rec.signature = [1, 2, 3, 4];
    assert_eq!(ClientSaveData::read(&rec.write()).unwrap_err(), ReadError::InvalidSignature);
}
