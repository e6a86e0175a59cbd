use uefi::table::boot::{allocate_arguments, timer_arguments, wait_for_event_result, watchdog_data_len, AllocateType, TimerTrigger};
use uefi::table::runtime::{variable_keys_result, variable_keys_step, variable_size_result, VariableVendor};
use uefi::table::boot::{locate_handle_result, search_arguments, SearchType};
use uefi::data_types::Guid;
use uefi::result::Status;
use uefi::table::boot::{MemoryAttribute, MemoryDescriptor, MemoryMapIter, MemoryType};
use uefi::table::runtime::{Daylight, Time, TimeError, TimeParams};

fn params() -> TimeParams {
    TimeParams {
        year: 2023,
        month: 4,
        day: 30,
        hour: 23,
        minute: 59,
        second: 58,
        nanosecond: 999_999_999,
        time_zone: Some(-60),
        daylight: Daylight::IN_DAYLIGHT(),
    }
}

#[test]
fn test_time_new_roundtrip() {
    let t = Time::new(params()).unwrap();
    assert!(t.is_valid());
    assert_eq!((t.year(), t.month(), t.day()), (2023, 4, 30));
    assert_eq!((t.hour(), t.minute(), t.second(), t.nanosecond()), (23, 59, 58, 999_999_999));
    assert_eq!(t.time_zone(), Some(-60));
    assert_eq!(t.daylight(), Daylight::IN_DAYLIGHT());
    let local = Time::new(TimeParams { time_zone: None, ..params() }).unwrap();
    assert_eq!(local.time_zone(), None);
    // 2047 stands for local time inside a time; as an offset it is out of range.
    assert_eq!(Time::new(TimeParams { time_zone: Some(2047), ..params() }), Err(TimeError));
    assert!(Time::new(TimeParams { time_zone: Some(1440), ..params() }).is_ok());
    assert_eq!(Time::new(TimeParams { time_zone: Some(-1441), ..params() }), Err(TimeError));
}

#[test]
fn test_time_new_invalid_fields() {
    assert_eq!(Time::new(TimeParams { year: 1899, ..params() }), Err(TimeError));
    assert_eq!(Time::new(TimeParams { month: 13, ..params() }), Err(TimeError));
    assert_eq!(Time::new(TimeParams { day: 0, ..params() }), Err(TimeError));
    assert_eq!(Time::new(TimeParams { hour: 24, ..params() }), Err(TimeError));
    assert_eq!(Time::new(TimeParams { nanosecond: 1_000_000_000, ..params() }), Err(TimeError));
    assert_eq!(Time::new(TimeParams { time_zone: Some(1441), ..params() }), Err(TimeError));
    assert!(Time::new(TimeParams { time_zone: Some(-1440), ..params() }).is_ok());
    assert!(!Time::invalid().is_valid());
    assert_eq!(Time::invalid().year(), 0);
}

#[test]
fn test_memory_type_custom() {
    assert_eq!(MemoryType::custom(0x8000_0001).0, 0x8000_0001);
    assert_eq!(MemoryType::CONVENTIONAL().0, 7);
}

#[test]
fn test_memory_map_iter() {
    let entry = 48usize;
    let mut buf = vec![0u8; entry * 2];
    buf[0] = 7;
    buf[8..16].copy_from_slice(&0x1000u64.to_le_bytes());
    buf[24..32].copy_from_slice(&16u64.to_le_bytes());
    buf[32..40].copy_from_slice(&0x8000_0000_0000_0008u64.to_le_bytes());
    buf[entry] = 2;
    buf[entry + 8..entry + 16].copy_from_slice(&0x200000u64.to_le_bytes());
    let mut it = MemoryMapIter::new(&buf, entry, 2).unwrap();
    assert_eq!(it.size_hint(), 2);
    let d: MemoryDescriptor = it.next().unwrap();
    assert_eq!(d.ty, MemoryType::CONVENTIONAL());
    assert_eq!((d.phys_start, d.page_count), (0x1000, 16));
    assert!(d.att.contains(MemoryAttribute::RUNTIME()));
    assert!(d.att.contains(MemoryAttribute::WRITE_BACK()));
    let d = it.next().unwrap();
    assert_eq!(d.ty, MemoryType::LOADER_DATA());
    assert_eq!(d.phys_start, 0x200000);
    assert!(it.next().is_none());
    assert!(MemoryMapIter::new(&buf, 39, 2).is_none());
    assert!(MemoryMapIter::new(&buf, entry, 3).is_none());
}


#[test]
fn test_locate_handle_result() {
    let word = std::mem::size_of::<usize>();
    // Asked without a buffer, "buffer too small" gives the number of handles.
    match locate_handle_result(false, Status::BUFFER_TOO_SMALL(), 3 * word) {
        Ok(c) => assert_eq!(c.unwrap(), 3),
        Err(_) => panic!("a count expected"),
    }
    // With a buffer, it is an error.
    match locate_handle_result(true, Status::BUFFER_TOO_SMALL(), 3 * word) {
        Err(e) => assert_eq!(e.status(), Status::BUFFER_TOO_SMALL()),
        Ok(_) => panic!("an error expected"),
    }
    match locate_handle_result(true, Status::SUCCESS(), 5 * word + 1) {
        Ok(c) => assert_eq!(c.unwrap(), 5),
        Err(_) => panic!("a count expected"),
    }
    match locate_handle_result(false, Status::NOT_FOUND(), 0) {
        Err(e) => assert_eq!(e.status(), Status::NOT_FOUND()),
        Ok(_) => panic!("an error expected"),
    }
    assert_eq!(search_arguments(SearchType::AllHandles).0, 0);
    let g = Guid::from_values(1, 2, 3, 4, 5);
    let (ty, guid) = search_arguments(SearchType::ByProtocol(g));
    assert_eq!(ty, 2);
    assert_eq!(guid, Some(g));
}


#[test]
fn test_variable_keys_steps() {
    let mut keys = Vec::new();
    let mut name: Vec<u16> = vec![0; 4];
    let vendor = Guid::from_values(0x8be4df61, 0x93ca, 0x11d2, 0xaa0d, 0x00e098032b8c);
    // The buffer is too small: it grows to the size asked for.
    assert_eq!(variable_keys_step(&mut keys, &mut name, Status::BUFFER_TOO_SMALL(), vendor, 16), None);
    assert_eq!(name, vec![0; 8]);
    // A name: the key holds it up to its first null.
    name = vec![66, 111, 111, 116, 0, 55, 0, 0];
    assert_eq!(variable_keys_step(&mut keys, &mut name, Status::SUCCESS(), vendor, 16), None);
    assert_eq!(keys.len(), 1);
    assert_eq!(keys[0].name().unwrap().as_string(), "Boot");
    assert_eq!(keys[0].vendor, VariableVendor::GLOBAL_VARIABLE());
    // A size smaller than the buffer cuts it.
    assert_eq!(variable_keys_step(&mut keys, &mut name, Status::BUFFER_TOO_SMALL(), vendor, 6), None);
    assert_eq!(name, vec![66, 111, 111]);
    // A name without a null aborts the listing.
    assert_eq!(variable_keys_step(&mut keys, &mut name, Status::SUCCESS(), vendor, 6), Some(Status::ABORTED()));
    // The end of the list is a success; other statuses end it as they are.
    assert_eq!(variable_keys_step(&mut keys, &mut name, Status::NOT_FOUND(), vendor, 6), Some(Status::SUCCESS()));
    assert_eq!(
        variable_keys_step(&mut keys, &mut name, Status::DEVICE_ERROR(), vendor, 6),
        Some(Status::DEVICE_ERROR())
    );
    assert_eq!(keys.len(), 1);
    match variable_keys_result(Status::SUCCESS(), keys) {
        Ok(c) => assert_eq!(c.unwrap().len(), 1),
        Err(_) => panic!("keys expected"),
    }
    match variable_keys_result(Status::ABORTED(), Vec::new()) {
        Err(e) => assert_eq!(e.status(), Status::ABORTED()),
        Ok(_) => panic!("an error expected"),
    }
}

#[test]
fn test_variable_size_result() {
    match variable_size_result(Status::BUFFER_TOO_SMALL(), 12) {
        Ok(c) => assert_eq!(c.unwrap(), 12),
        Err(_) => panic!("a size expected"),
    }
    // Even a success is an error here: the variable was not sized.
    match variable_size_result(Status::SUCCESS(), 12) {
        Err(e) => assert_eq!(e.status(), Status::SUCCESS()),
        Ok(_) => panic!("an error expected"),
    }
}


#[test]
fn test_boot_service_arguments() {
    assert_eq!(allocate_arguments(AllocateType::AnyPages), (0, 0));
    assert_eq!(allocate_arguments(AllocateType::MaxAddress(0x1000)), (1, 0x1000));
    assert_eq!(allocate_arguments(AllocateType::Address(0x2000)), (2, 0x2000));
    assert_eq!(timer_arguments(TimerTrigger::Cancel), (0, 0));
    assert_eq!(timer_arguments(TimerTrigger::Periodic(10)), (1, 10));
    assert_eq!(timer_arguments(TimerTrigger::Relative(7)), (2, 7));
    assert_eq!(watchdog_data_len(0x10000, None), 0);
    assert_eq!(watchdog_data_len(0x10000, Some(&[65, 0, 1][..])), 3);
}

#[test]
fn test_wait_for_event_result() {
    match wait_for_event_result(Status::SUCCESS(), 2) {
        Ok(c) => assert_eq!(c.unwrap(), 2),
        Err(_) => panic!("an index expected"),
    }
    match wait_for_event_result(Status::INVALID_PARAMETER(), 1) {
        Err(e) => assert_eq!(*e.data(), Some(1)),
        Ok(_) => panic!("an error expected"),
    }
    match wait_for_event_result(Status::UNSUPPORTED(), 1) {
        Err(e) => {
            assert_eq!(e.status(), Status::UNSUPPORTED());
            assert_eq!(*e.data(), None);
        }
        Ok(_) => panic!("an error expected"),
    }
}


#[test]
fn test_time_text() {
    let t = Time::new(params()).unwrap();
    assert_eq!(t.date_time_text(), "2023-04-30 23:59:58.999999999");
    assert_eq!(t.zone_text(), Some(String::from("UTC+-1")));
    let early = Time::new(TimeParams { year: 1999, month: 1, day: 2, hour: 3, minute: 4, second: 5, nanosecond: 6, time_zone: Some(120), ..params() }).unwrap();
    assert_eq!(early.date_time_text(), "1999-01-02 03:04:05.000000006");
    assert_eq!(early.zone_text(), Some(String::from("UTC+2")));
    let local = Time::new(TimeParams { time_zone: None, ..params() }).unwrap();
    assert_eq!(local.zone_text(), Some(String::from(" (local)")));
    let half = Time::new(TimeParams { time_zone: Some(330), ..params() }).unwrap();
    assert_eq!(half.zone_text(), None);
    let utc = Time::new(TimeParams { time_zone: Some(0), ..params() }).unwrap();
    assert_eq!(utc.zone_text(), Some(String::from("UTC+0")));
}
