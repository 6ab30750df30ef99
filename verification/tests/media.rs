use v4l::error::{Error, ErrorKind};
use v4l::media::device::{
    links_query, prepare_setup_link, DeviceInfo, EntityEnum, ENT_ID_FLAG_NEXT,
};
use v4l::media::entity::{classify_entity, EntityDesc, EntityType, RawEntity};
use v4l::media::link::{
    decode_links, Link, LinkFlags, LinkType, Pad, PadFlags, RawLink, RawPad, LNK_FL_DYNAMIC,
    LNK_FL_ENABLED, LNK_FL_IMMUTABLE, PAD_FL_SINK, PAD_FL_SOURCE,
};
use v4l::media::Version;

fn invalid_argument() -> Error {
    Error { kind: ErrorKind::InvalidArgument, code: 22 }
}

fn raw_entity(id: u32, type_code: u32, pads: u16, links: u16) -> RawEntity {
    RawEntity {
        id,
        name: format!("entity{}", id),
        type_code,
        dev_major: 81,
        dev_minor: 3,
        revision: 1,
        flags: 0,
        group_id: 0,
        pads,
        links,
    }
}

#[test]
fn packed_version_field_decodes_per_byte() {
    // The packed field 0x00050102 carries major 5, minor 1, patch 2.
    let v = Version::from(0x00050102u32);
    assert_eq!(v, Version { major: 5, minor: 1, patch: 2 });
    assert_eq!(Version::from(0u32), Version { major: 0, minor: 0, patch: 0 });
    assert_eq!(Version::from(0xFFFFFFFFu32), Version { major: 0xFF, minor: 0xFF, patch: 0xFF });
}

#[test]
fn device_info_decodes_both_version_fields() {
    let info = DeviceInfo::from_raw(
        String::from("uvcvideo"),
        String::from("Webcam"),
        String::from("0123456789"),
        String::from("usb-0000:00:14.0-1"),
        0x00050102,
        0x2040,
        0x00060300,
    );
    assert_eq!(info.media_version, Version { major: 5, minor: 1, patch: 2 });
    assert_eq!(info.driver_version, Version { major: 6, minor: 3, patch: 0 });
    assert_eq!(info.hw_revision, 0x2040);
    assert_eq!(info.driver, "uvcvideo");
}

#[test]
fn entity_codes_classify_with_a_preserved_catch_all() {
    assert_eq!(classify_entity(0, 0, 0), EntityType::Unknown);
    assert_eq!(classify_entity(0x00020000, 0, 0), EntityType::Subdev);
    assert_eq!(classify_entity(0x00010001, 81, 5), EntityType::Dev { major: 81, minor: 5 });
    assert_eq!(classify_entity(0x00020001, 0, 0), EntityType::Camera);
    // An unfamiliar function code is preserved, not fatal.
    assert_eq!(classify_entity(0x00004005, 0, 0), EntityType::Other(0x00004005));
}

#[test]
fn entity_enumeration_carries_the_last_id_forward() {
    let en = EntityEnum::new();
    assert_eq!(en.next_id(), ENT_ID_FLAG_NEXT);
    assert_eq!(en.next_id(), 0x80000000);
    let en = en.feed(Ok(raw_entity(1, 0x00010001, 1, 0)));
    assert_eq!(en.next_id(), 1 | 0x80000000);
    let en = en.feed(Ok(raw_entity(4, 0x00020001, 2, 1)));
    assert_eq!(en.next_id(), 4 | 0x80000000);
    let en = en.feed(Err(invalid_argument()));
    let entities = en.into_result().unwrap();
    assert_eq!(entities.len(), 2);
    assert_eq!(entities[0].id, 1);
    assert_eq!(entities[0].entity_type, EntityType::Dev { major: 81, minor: 3 });
    assert_eq!(entities[1].id, 4);
    assert_eq!(entities[1].entity_type, EntityType::Camera);
}

#[test]
fn entity_enumeration_sentinel_on_first_query_is_an_empty_list() {
    // Unlike controls, a media device with no entities is simply empty: the
    // sentinel on the very first query is not an error.
    let en = EntityEnum::new();
    let en = en.feed(Err(invalid_argument()));
    assert_eq!(en.into_result().unwrap(), vec![]);
}

#[test]
fn entity_enumeration_propagates_hard_errors() {
    let en = EntityEnum::new();
    let en = en.feed(Ok(raw_entity(1, 0, 1, 1)));
    let en = en.feed(Err(Error { kind: ErrorKind::Busy, code: 16 }));
    let err = en.into_result().unwrap_err();
    assert_eq!(err.kind, ErrorKind::Busy);
}

#[test]
fn links_query_sizes_buffers_to_declared_counts() {
    let entity = EntityDesc {
        id: 9,
        name: String::from("scaler"),
        type_: 0x00004005,
        entity_type: EntityType::Other(0x00004005),
        revision: 0,
        flags: 0,
        group_id: 0,
        pads: 2,
        links: 5,
    };
    let q = links_query(&entity);
    assert_eq!(q.entity_id, 9);
    assert_eq!(q.pads, 2);
    assert_eq!(q.links, 5);
}

#[test]
fn raw_links_decode_pointwise() {
    let raws = vec![
        RawLink {
            source: RawPad { entity: 1, index: 0, flags: PAD_FL_SOURCE },
            sink: RawPad { entity: 2, index: 1, flags: PAD_FL_SINK },
            flags: LNK_FL_ENABLED,
        },
        RawLink {
            source: RawPad { entity: 2, index: 2, flags: PAD_FL_SOURCE },
            sink: RawPad { entity: 3, index: 0, flags: PAD_FL_SINK },
            flags: LNK_FL_IMMUTABLE | LNK_FL_ENABLED,
        },
    ];
    let links = decode_links(&raws);
    assert_eq!(links.len(), 2);
    assert_eq!(links[0].source, Pad { entity: 1, index: 0, flags: PadFlags { bits: PAD_FL_SOURCE } });
    assert_eq!(links[0].sink.entity, 2);
    assert!(links[0].flags.contains(LNK_FL_ENABLED));
    assert!(links[1].flags.contains(LNK_FL_IMMUTABLE));
}

#[test]
fn link_type_sub_field_decodes() {
    assert_eq!(LinkFlags { bits: LNK_FL_ENABLED }.link_type(), LinkType::Data);
    assert_eq!(LinkFlags { bits: 0x10000000 | LNK_FL_ENABLED }.link_type(), LinkType::Interface);
    assert_eq!(LinkFlags { bits: 0x20000000 }.link_type(), LinkType::Ancillary);
}

#[test]
fn immutable_link_is_rejected_before_any_io() {
    let link = Link {
        source: Pad { entity: 1, index: 0, flags: PadFlags { bits: PAD_FL_SOURCE } },
        sink: Pad { entity: 2, index: 0, flags: PadFlags { bits: PAD_FL_SINK } },
        flags: LinkFlags { bits: LNK_FL_IMMUTABLE | LNK_FL_ENABLED },
    };
    // Whatever the enabled argument says, an immutable link is a
    // precondition violation.
    let err_on = prepare_setup_link(&link, true).unwrap_err();
    let err_off = prepare_setup_link(&link, false).unwrap_err();
    assert_eq!(err_on, Error { kind: ErrorKind::PreconditionViolation, code: 0 });
    assert_eq!(err_off, Error { kind: ErrorKind::PreconditionViolation, code: 0 });
}

#[test]
fn setup_link_toggles_only_the_enabled_bit() {
    let link = Link {
        source: Pad { entity: 1, index: 0, flags: PadFlags { bits: PAD_FL_SOURCE } },
        sink: Pad { entity: 2, index: 0, flags: PadFlags { bits: PAD_FL_SINK } },
        flags: LinkFlags { bits: LNK_FL_DYNAMIC },
    };
    let on = prepare_setup_link(&link, true).unwrap();
    assert_eq!(on.flags, LNK_FL_DYNAMIC | LNK_FL_ENABLED);
    assert_eq!(on.source, RawPad { entity: 1, index: 0, flags: PAD_FL_SOURCE });
    assert_eq!(on.sink, RawPad { entity: 2, index: 0, flags: PAD_FL_SINK });

    let enabled = Link {
        source: link.source,
        sink: link.sink,
        flags: LinkFlags { bits: LNK_FL_DYNAMIC | LNK_FL_ENABLED },
    };
    let off = prepare_setup_link(&enabled, false).unwrap();
    assert_eq!(off.flags, LNK_FL_DYNAMIC);
}
