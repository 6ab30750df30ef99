pub mod device;
pub mod entity;
pub mod link;

use vstd::prelude::*;

verus! {

/// Version number MAJOR.MINOR.PATCH.
///
/// The media-controller ABI packs a version into one 32-bit field:
/// bits 16-23 hold the major number, bits 8-15 the minor, bits 0-7 the patch.
#[derive(Clone, Copy, Debug, PartialEq, Eq, Structural)]
pub struct Version {
    pub major: u8,
    pub minor: u8,
    pub patch: u8,
}

/// The version encoded by a packed 32-bit field.
pub open spec fn version_of(v: u32) -> Version {
    Version {
        major: ((v >> 16) & 0xff) as u8,
        minor: ((v >> 8) & 0xff) as u8,
        patch: (v & 0xff) as u8,
    }
}

impl From<u32> for Version {
    /// Decodes the packed 32-bit version field.
    fn from(v: u32) -> (r: Version) {
        let major_bits: u32 = (v >> 16) & 0xff;
        let minor_bits: u32 = (v >> 8) & 0xff;
        let patch_bits: u32 = v & 0xff;
        assert(major_bits <= 0xff && minor_bits <= 0xff && patch_bits <= 0xff) by (bit_vector)
            requires
                major_bits == (v >> 16) & 0xff,
                minor_bits == (v >> 8) & 0xff,
                patch_bits == v & 0xff,
        ;
        Version {
            major: major_bits as u8,
            minor: minor_bits as u8,
            patch: patch_bits as u8,
        }
    }
}

impl vstd::std_specs::convert::FromSpecImpl<u32> for Version {
    open spec fn obeys_from_spec() -> bool {
        true
    }

    open spec fn from_spec(v: u32) -> Version {
        version_of(v)
    }
}

} // verus!
