use vstd::prelude::*;

verus! {

// Entity-function codes of the media-controller ABI.
pub const ENT_F_UNKNOWN: u32 = 0x00000000;
pub const ENT_F_V4L2_SUBDEV_UNKNOWN: u32 = 0x00020000;
pub const ENT_F_IO_V4L: u32 = 0x00010001;
pub const ENT_F_CAM_SENSOR: u32 = 0x00020001;

/// Classification of a media entity by its function code.
#[derive(Clone, Copy, Debug, PartialEq, Eq, Structural)]
pub enum EntityType {
    Unknown,
    Subdev,
    /// A video device node, with its major and minor numbers.
    Dev { major: u32, minor: u32 },
    Alsa { card: u32, device: u32, subdevice: u32 },
    Fb { major: u32, minor: u32 },
    Dvb(i32),
    Camera,
    /// A function code this library has no name for, preserved as-is so a
    /// single unfamiliar entity does not abort a whole graph enumeration.
    Other(u32),
}

/// The classification a function code decodes to; a device-node entity
/// carries the node's major and minor numbers from the record's union.
pub open spec fn entity_type_of(code: u32, dev_major: u32, dev_minor: u32) -> EntityType {
    if code == ENT_F_UNKNOWN {
        EntityType::Unknown
    } else if code == ENT_F_V4L2_SUBDEV_UNKNOWN {
        EntityType::Subdev
    } else if code == ENT_F_IO_V4L {
        EntityType::Dev { major: dev_major, minor: dev_minor }
    } else if code == ENT_F_CAM_SENSOR {
        EntityType::Camera
    } else {
        EntityType::Other(code)
    }
}

/// Classifies a function code.
pub fn classify_entity(code: u32, dev_major: u32, dev_minor: u32) -> (r: EntityType)
    ensures
        r == entity_type_of(code, dev_major, dev_minor),
{
    if code == ENT_F_UNKNOWN {
        EntityType::Unknown
    } else if code == ENT_F_V4L2_SUBDEV_UNKNOWN {
        EntityType::Subdev
    } else if code == ENT_F_IO_V4L {
        EntityType::Dev { major: dev_major, minor: dev_minor }
    } else if code == ENT_F_CAM_SENSOR {
        EntityType::Camera
    } else {
        EntityType::Other(code)
    }
}

/// The raw record one entity-enumeration step answers with, lifted to plain
/// values; the name is already decoded from its fixed-size byte field.
#[derive(Clone, Debug, PartialEq, Eq)]
pub struct RawEntity {
    pub id: u32,
    pub name: String,
    pub type_code: u32,
    /// Major number from the record's device-node union member; meaningful
    /// only for device-node function codes.
    pub dev_major: u32,
    pub dev_minor: u32,
    pub revision: u32,
    pub flags: u32,
    pub group_id: u32,
    pub pads: u16,
    pub links: u16,
}

/// A node of the media graph: an immutable snapshot of one entity.
#[derive(Clone, Debug, PartialEq, Eq)]
pub struct EntityDesc {
    pub id: u32,
    pub name: String,
    /// The raw function code, as answered by the driver.
    pub type_: u32,
    pub entity_type: EntityType,
    pub revision: u32,
    pub flags: u32,
    pub group_id: u32,
    /// Declared number of pads.
    pub pads: u16,
    /// Declared number of outbound links.
    pub links: u16,
}

/// The entity a raw enumeration record decodes to.
pub open spec fn entity_of(raw: RawEntity) -> EntityDesc {
    EntityDesc {
        id: raw.id,
        name: raw.name,
        type_: raw.type_code,
        entity_type: entity_type_of(raw.type_code, raw.dev_major, raw.dev_minor),
        revision: raw.revision,
        flags: raw.flags,
        group_id: raw.group_id,
        pads: raw.pads,
        links: raw.links,
    }
}

impl EntityDesc {
    /// Decodes one raw enumeration record.
    pub fn from_raw(raw: RawEntity) -> (r: EntityDesc)
        ensures
            r == entity_of(raw),
    {
        let entity_type = classify_entity(raw.type_code, raw.dev_major, raw.dev_minor);
        EntityDesc {
            id: raw.id,
            name: raw.name,
            type_: raw.type_code,
            entity_type,
            revision: raw.revision,
            flags: raw.flags,
            group_id: raw.group_id,
            pads: raw.pads,
            links: raw.links,
        }
    }
}

} // verus!
