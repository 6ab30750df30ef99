use vstd::prelude::*;

verus! {

// Pad flag bits of the media-controller ABI.
pub const PAD_FL_SINK: u32 = 0x1;
pub const PAD_FL_SOURCE: u32 = 0x2;
pub const PAD_FL_MUST_CONNECT: u32 = 0x4;

// Link flag bits of the media-controller ABI.
pub const LNK_FL_ENABLED: u32 = 0x1;
pub const LNK_FL_IMMUTABLE: u32 = 0x2;
pub const LNK_FL_DYNAMIC: u32 = 0x4;

// The link-type sub-field of the link flags, and its named codes.
pub const LNK_FL_LINK_TYPE: u32 = 0xF0000000;
pub const LNK_FL_DATA_LINK: u32 = 0x00000000;
pub const LNK_FL_INTERFACE_LINK: u32 = 0x10000000;
pub const LNK_FL_ANCILLARY_LINK: u32 = 0x20000000;

/// Whether every bit of `mask` is set in `bits`.
pub open spec fn has_bits(bits: u32, mask: u32) -> bool {
    bits & mask == mask
}

/// Direction and constraint bits of a pad (`Sink`, `Source`,
/// `MustConnect`).
#[derive(Clone, Copy, Debug, PartialEq, Eq, Structural)]
pub struct PadFlags {
    pub bits: u32,
}

impl PadFlags {
    /// Whether every bit of `mask` is set.
    pub fn contains(&self, mask: u32) -> (r: bool)
        ensures
            r == has_bits(self.bits, mask),
    {
        self.bits & mask == mask
    }
}

/// Flag bits of a link (`Enabled`, `Immutable`, `Dynamic`) together with
/// the link-type sub-field.
#[derive(Clone, Copy, Debug, PartialEq, Eq, Structural)]
pub struct LinkFlags {
    pub bits: u32,
}

/// Derived classification of a link, decoded from the link-type sub-field
/// of its flags.
#[derive(Clone, Copy, Debug, PartialEq, Eq, Structural)]
pub enum LinkType {
    Data,
    Interface,
    Ancillary,
}

impl LinkFlags {
    /// Whether every bit of `mask` is set.
    pub fn contains(&self, mask: u32) -> (r: bool)
        ensures
            r == has_bits(self.bits, mask),
    {
        self.bits & mask == mask
    }

    /// The link's derived classification.
    ///
    /// The ABI reserves further codes in the sub-field; this library names
    /// only the three above, and a caller must not ask about any other.
    pub fn link_type(self) -> (r: LinkType)
        requires
            self.bits & LNK_FL_LINK_TYPE == LNK_FL_DATA_LINK || self.bits & LNK_FL_LINK_TYPE
                == LNK_FL_INTERFACE_LINK || self.bits & LNK_FL_LINK_TYPE == LNK_FL_ANCILLARY_LINK,
        ensures
            self.bits & LNK_FL_LINK_TYPE == LNK_FL_DATA_LINK ==> r is Data,
            self.bits & LNK_FL_LINK_TYPE == LNK_FL_INTERFACE_LINK ==> r is Interface,
            self.bits & LNK_FL_LINK_TYPE == LNK_FL_ANCILLARY_LINK ==> r is Ancillary,
    {
        let sub: u32 = self.bits & LNK_FL_LINK_TYPE;
        if sub == LNK_FL_DATA_LINK {
            LinkType::Data
        } else if sub == LNK_FL_INTERFACE_LINK {
            LinkType::Interface
        } else {
            LinkType::Ancillary
        }
    }
}

/// A connection point of an entity. `entity` is a non-owning back-reference
/// to the owning entity's id, not a handle.
#[derive(Clone, Copy, Debug, PartialEq, Eq, Structural)]
pub struct Pad {
    pub entity: u32,
    pub index: u16,
    pub flags: PadFlags,
}

/// The raw wire record of a pad.
#[derive(Clone, Copy, Debug, PartialEq, Eq, Structural)]
pub struct RawPad {
    pub entity: u32,
    pub index: u16,
    pub flags: u32,
}

/// The pad a raw record decodes to.
pub open spec fn pad_of(raw: RawPad) -> Pad {
    Pad { entity: raw.entity, index: raw.index, flags: PadFlags { bits: raw.flags } }
}

/// The raw record a pad encodes to.
pub open spec fn raw_of_pad(p: Pad) -> RawPad {
    RawPad { entity: p.entity, index: p.index, flags: p.flags.bits }
}

impl Pad {
    /// Decodes one raw pad record.
    pub fn from_raw(raw: RawPad) -> (r: Pad)
        ensures
            r == pad_of(raw),
    {
        Pad { entity: raw.entity, index: raw.index, flags: PadFlags { bits: raw.flags } }
    }
}

/// A directed connection from exactly one source pad to one sink pad.
#[derive(Clone, Copy, Debug, PartialEq, Eq, Structural)]
pub struct Link {
    pub source: Pad,
    pub sink: Pad,
    pub flags: LinkFlags,
}

/// The raw wire record of a link.
#[derive(Clone, Copy, Debug, PartialEq, Eq, Structural)]
pub struct RawLink {
    pub source: RawPad,
    pub sink: RawPad,
    pub flags: u32,
}

/// The link a raw record decodes to.
pub open spec fn link_of(raw: RawLink) -> Link {
    Link { source: pad_of(raw.source), sink: pad_of(raw.sink), flags: LinkFlags { bits: raw.flags } }
}

impl Link {
    /// Decodes one raw link record.
    pub fn from_raw(raw: RawLink) -> (r: Link)
        ensures
            r == link_of(raw),
    {
        Link {
            source: Pad::from_raw(raw.source),
            sink: Pad::from_raw(raw.sink),
            flags: LinkFlags { bits: raw.flags },
        }
    }
}

/// Decodes the records a link enumeration filled its receiving buffer
/// with, in order.
pub fn decode_links(raws: &Vec<RawLink>) -> (r: Vec<Link>)
    ensures
        r@.len() == raws@.len(),
        forall|i: int| 0 <= i < raws@.len() ==> r@[i] == link_of(#[trigger] raws@[i]),
{
    let mut out: Vec<Link> = Vec::new();
    let mut i: usize = 0;
    while i < raws.len()
        invariant
            0 <= i <= raws@.len(),
            out@.len() == i,
            forall|k: int| 0 <= k < i ==> out@[k] == link_of(#[trigger] raws@[k]),
        decreases raws@.len() - i,
    {
        out.push(Link::from_raw(raws[i]));
        i = i + 1;
    }
    out
}

} // verus!
