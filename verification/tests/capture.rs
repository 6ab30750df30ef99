use v4l::control::{Control, ControlType, ControlValue, Description, MenuItem};
use v4l::device::{
    interpret_control, prepare_controls, ControlAction, ControlEnum, RawDescription,
    CTRL_FLAG_NEXT_COMPOUND, CTRL_FLAG_NEXT_CTRL,
};
use v4l::enumerate::SentinelScan;
use v4l::error::{Error, ErrorKind};
use v4l::handle::Handle;

fn invalid_argument() -> Error {
    Error { kind: ErrorKind::InvalidArgument, code: 22 }
}

fn io_error() -> Error {
    Error { kind: ErrorKind::Other, code: 5 }
}

fn raw_desc(id: u32, type_code: u32, minimum: i64, maximum: i64, step: u64) -> RawDescription {
    RawDescription { id, name: String::from("ctrl"), type_code, minimum, maximum, step }
}

#[test]
fn control_type_codes_decode() {
    assert_eq!(ControlType::from_code(1), Some(ControlType::Integer));
    assert_eq!(ControlType::from_code(2), Some(ControlType::Boolean));
    assert_eq!(ControlType::from_code(3), Some(ControlType::Menu));
    assert_eq!(ControlType::from_code(5), Some(ControlType::Integer64));
    assert_eq!(ControlType::from_code(9), Some(ControlType::IntegerMenu));
    assert_eq!(ControlType::from_code(0x0100), Some(ControlType::CompoundU8));
    assert_eq!(ControlType::from_code(0x0101), Some(ControlType::CompoundU16));
    assert_eq!(ControlType::from_code(0x0102), Some(ControlType::CompoundU32));
    assert_eq!(ControlType::from_code(0x0106), Some(ControlType::CompoundPtr));
    assert_eq!(ControlType::from_code(0), None);
    assert_eq!(ControlType::from_code(42), None);
}

#[test]
fn boolean_control_reads_true_only_for_one() {
    let desc = Description {
        id: 0x00980900,
        name: String::from("toggle"),
        typ: ControlType::Boolean,
        minimum: 0,
        maximum: 1,
        step: 1,
        items: None,
    };
    let one = interpret_control(&desc, 0, 1).unwrap();
    assert_eq!(one.value, ControlValue::Boolean(true));
    let zero = interpret_control(&desc, 0, 0).unwrap();
    assert_eq!(zero.value, ControlValue::Boolean(false));
    // A raw value outside {0, 1} does not partially succeed: the mapping is
    // total and reads as false, mirroring an equality test against 1.
    let two = interpret_control(&desc, 0, 2).unwrap();
    assert_eq!(two.value, ControlValue::Boolean(false));
}

#[test]
fn integer_controls_widen_to_64_bit() {
    let mut desc = Description {
        id: 0x00980901,
        name: String::from("gain"),
        typ: ControlType::Integer,
        minimum: -128,
        maximum: 127,
        step: 1,
        items: None,
    };
    let c = interpret_control(&desc, 7777, -5).unwrap();
    assert_eq!(c, Control { id: 0x00980901, value: ControlValue::Integer(-5) });

    desc.typ = ControlType::Integer64;
    let c64 = interpret_control(&desc, 1 << 40, -5).unwrap();
    assert_eq!(c64.value, ControlValue::Integer(1 << 40));

    desc.typ = ControlType::String;
    let err = interpret_control(&desc, 0, 0).unwrap_err();
    assert_eq!(err.kind, ErrorKind::Unsupported);
}

#[test]
fn empty_batch_is_rejected_before_any_io() {
    let err = prepare_controls(&vec![]).unwrap_err();
    assert_eq!(err, Error { kind: ErrorKind::InvalidArgument, code: 0 });
}

#[test]
fn mixed_class_batch_is_rejected() {
    let ctrls = vec![
        Control { id: 0x00980900, value: ControlValue::Integer(1) },
        Control { id: 0x009A0000, value: ControlValue::Integer(2) },
    ];
    let err = prepare_controls(&ctrls).unwrap_err();
    assert_eq!(err, Error { kind: ErrorKind::InvalidArgument, code: 0 });
}

#[test]
fn single_class_batch_takes_first_controls_class() {
    let ctrls = vec![
        Control { id: 0x00980900, value: ControlValue::Integer(1) },
        Control { id: 0x00980901, value: ControlValue::Boolean(true) },
        Control { id: 0x0098FFFF, value: ControlValue::Empty },
    ];
    let batch = prepare_controls(&ctrls).unwrap();
    assert_eq!(batch.which, 0x00980900u32 & 0xFFFF0000);
    assert_eq!(batch.which, 0x00980000);
    assert_eq!(batch.entries.len(), 3);
    assert_eq!(batch.entries[0].id, 0x00980900);
    assert_eq!(batch.entries[0].value64, 1);
    assert_eq!(batch.entries[1].value64, 1);
    assert_eq!(batch.entries[2].value64, 0);
}

#[test]
fn wire_sizes_match_payload_byte_lengths() {
    let ctrls = vec![
        Control { id: 0x00980900, value: ControlValue::String(String::from("abcd")) },
        Control { id: 0x00980901, value: ControlValue::CompoundU8(vec![1, 2, 3]) },
        Control { id: 0x00980902, value: ControlValue::CompoundU16(vec![1, 2, 3]) },
        Control { id: 0x00980903, value: ControlValue::CompoundU32(vec![1, 2]) },
        Control { id: 0x00980904, value: ControlValue::CompoundPtr(vec![9; 10]) },
        Control { id: 0x00980905, value: ControlValue::Integer(-1) },
    ];
    let batch = prepare_controls(&ctrls).unwrap();
    assert_eq!(batch.entries[0].size, 4);
    assert_eq!(batch.entries[1].size, 3);
    assert_eq!(batch.entries[2].size, 6);
    assert_eq!(batch.entries[3].size, 8);
    assert_eq!(batch.entries[4].size, 10);
    assert_eq!(batch.entries[5].size, 0);
}

#[test]
fn first_query_id_carries_both_continuation_bits() {
    let en = ControlEnum::new();
    match en.next_action() {
        ControlAction::QueryControl { id } => {
            assert_eq!(id, CTRL_FLAG_NEXT_CTRL | CTRL_FLAG_NEXT_COMPOUND);
            assert_eq!(id, 0xC0000000);
        }
        other => panic!("expected a control query, got {:?}", other),
    }
}

#[test]
fn failing_very_first_control_query_propagates() {
    // An InvalidArgument answer on the very first query is a real error: it
    // distinguishes "no control support at all" from "supported but empty".
    let en = ControlEnum::new();
    let en = en.feed_ctrl(Err(invalid_argument()));
    assert!(matches!(en.next_action(), ControlAction::Stop));
    let err = en.into_result().unwrap_err();
    assert_eq!(err, invalid_argument());
}

#[test]
fn sentinel_after_one_control_finishes_the_list() {
    let en = ControlEnum::new();
    let en = en.feed_ctrl(Ok(raw_desc(0x00980900, 1, 0, 255, 1)));
    // The next query continues from the answered id, continuation bits OR'd in.
    match en.next_action() {
        ControlAction::QueryControl { id } => assert_eq!(id, 0x00980900 | 0xC0000000),
        other => panic!("expected a control query, got {:?}", other),
    }
    let en = en.feed_ctrl(Err(invalid_argument()));
    let list = en.into_result().unwrap();
    assert_eq!(list.len(), 1);
    assert_eq!(list[0].id, 0x00980900);
    assert_eq!(list[0].typ, ControlType::Integer);
    assert_eq!(list[0].items, None);
}

#[test]
fn hard_error_mid_enumeration_propagates() {
    let en = ControlEnum::new();
    let en = en.feed_ctrl(Ok(raw_desc(0x00980900, 1, 0, 255, 1)));
    let en = en.feed_ctrl(Err(io_error()));
    let err = en.into_result().unwrap_err();
    assert_eq!(err, io_error());
}

#[test]
fn menu_control_walks_its_grid_and_skips_rejected_indices() {
    let en = ControlEnum::new();
    // A menu control over [1, 7] stepped by 2: indices 1, 3, 5, 7.
    let en = en.feed_ctrl(Ok(raw_desc(0x00980910, 3, 1, 7, 2)));
    let mut en = en;
    let mut probed = Vec::new();
    let answers = [
        Some(MenuItem::Name(String::from("a"))),
        None, // the driver rejects index 3: skipped, not fatal
        Some(MenuItem::Name(String::from("c"))),
        Some(MenuItem::Name(String::from("d"))),
    ];
    for answer in answers {
        match en.next_action() {
            ControlAction::QueryMenuItem { id, index } => {
                assert_eq!(id, 0x00980910);
                probed.push(index);
            }
            other => panic!("expected a menu query, got {:?}", other),
        }
        en = en.feed_menu(answer);
    }
    assert_eq!(probed, vec![1, 3, 5, 7]);
    let en = en.feed_ctrl(Err(invalid_argument()));
    let list = en.into_result().unwrap();
    assert_eq!(list.len(), 1);
    let items = list[0].items.as_ref().unwrap();
    assert_eq!(items.len(), 3);
    assert_eq!(items[0], (1, MenuItem::Name(String::from("a"))));
    assert_eq!(items[1], (5, MenuItem::Name(String::from("c"))));
    assert_eq!(items[2], (7, MenuItem::Name(String::from("d"))));
    // Every recorded index lies in [minimum, maximum] on the step grid.
    for (index, _) in items {
        assert!(1 <= *index && *index <= 7 && (*index - 1) % 2 == 0);
    }
}

#[test]
fn menu_control_with_empty_range_gets_an_empty_item_list() {
    let en = ControlEnum::new();
    let en = en.feed_ctrl(Ok(raw_desc(0x00980911, 9, 5, 4, 1)));
    let en = en.feed_ctrl(Err(invalid_argument()));
    let list = en.into_result().unwrap();
    assert_eq!(list.len(), 1);
    assert_eq!(list[0].typ, ControlType::IntegerMenu);
    assert_eq!(list[0].items, Some(vec![]));
}

#[test]
fn scan_collects_every_index_until_the_sentinel() {
    // A device with exactly three inputs: probes 0, 1, 2 answer Ok and
    // probe 3 answers InvalidArgument. The scan ends without error and the
    // items stand in ascending probe order.
    let mut scan: SentinelScan<u32> = SentinelScan::new();
    let mut probed = Vec::new();
    for payload in [10u32, 11, 12] {
        probed.push(scan.probe_index());
        scan = scan.feed(Ok(payload));
    }
    probed.push(scan.probe_index());
    scan = scan.feed(Err(invalid_argument()));
    assert!(!scan.is_running());
    assert_eq!(probed, vec![0, 1, 2, 3]);
    assert_eq!(scan.into_result().unwrap(), vec![10, 11, 12]);
}

#[test]
fn scan_with_no_items_is_an_empty_list_not_an_error() {
    let scan: SentinelScan<u32> = SentinelScan::new();
    assert_eq!(scan.probe_index(), 0);
    let scan = scan.feed(Err(invalid_argument()));
    assert_eq!(scan.into_result().unwrap(), vec![]);
}

#[test]
fn scan_surfaces_a_hard_error_over_collected_items() {
    let scan: SentinelScan<u32> = SentinelScan::new();
    let scan = scan.feed(Ok(1));
    let scan = scan.feed(Err(io_error()));
    assert_eq!(scan.into_result().unwrap_err(), io_error());
}

#[test]
fn last_release_hands_out_the_close_action_exactly_once() {
    let mut h = Handle::new(7);
    assert_eq!(h.fd(), 7);
    h.retain();
    h.retain();
    // Three owners: only the last release answers with the descriptor.
    assert_eq!(h.release(), None);
    assert_eq!(h.release(), None);
    assert_eq!(h.release(), Some(7));
    assert!(h.closed);
    assert_eq!(h.refs, 0);
}
