use vstd::prelude::*;

use crate::enumerate::ScanStatus;
use crate::error::{Error, ErrorKind};
use crate::media::entity::{entity_of, EntityDesc, RawEntity};
use crate::media::link::{
    has_bits, raw_of_pad, Link, RawLink, RawPad, LNK_FL_ENABLED, LNK_FL_IMMUTABLE,
};
use crate::media::{version_of, Version};

verus! {

/// The bit OR'd into a query id so the driver answers with the entity
/// following the one the id names.
pub const ENT_ID_FLAG_NEXT: u32 = 0x80000000;

/// Metadata of a media device: identity strings and the two version
/// triples, each decoded from a packed 32-bit field.
#[derive(Clone, Debug, PartialEq, Eq)]
pub struct DeviceInfo {
    /// Driver name, e.g. uvc for usb video class devices.
    pub driver: String,
    /// Card name.
    pub model: String,
    /// Serial number.
    pub serial: String,
    /// Bus name, e.g. USB or PCI.
    pub bus: String,
    /// Version of the media-controller interface.
    pub media_version: Version,
    pub hw_revision: u32,
    /// Version of the hardware driver.
    pub driver_version: Version,
}

impl DeviceInfo {
    /// Assembles the metadata record from the wire record's plain fields:
    /// the identity strings as decoded from their fixed-size byte fields,
    /// and the versions decoded from their packed 32-bit fields.
    pub fn from_raw(
        driver: String,
        model: String,
        serial: String,
        bus: String,
        media_version: u32,
        hw_revision: u32,
        driver_version: u32,
    ) -> (r: DeviceInfo)
        ensures
            r.driver == driver,
            r.model == model,
            r.serial == serial,
            r.bus == bus,
            r.media_version == version_of(media_version),
            r.hw_revision == hw_revision,
            r.driver_version == version_of(driver_version),
    {
        DeviceInfo {
            driver,
            model,
            serial,
            bus,
            media_version: Version::from(media_version),
            hw_revision,
            driver_version: Version::from(driver_version),
        }
    }
}

/// The entity-enumeration state machine.
///
/// Each query carries the previous answer's id with the "next" bit OR'd in
/// (the first query carries the bit alone), and the driver answers with the
/// following entity. An `InvalidArgument` answer ends the list — on the
/// very first query too: a media device with no entities yields an empty
/// list without error. Any other error ends the enumeration with that
/// error, and the entities collected so far are dropped in its favour.
pub struct EntityEnum {
    /// The entities decoded so far, in discovery order.
    pub entities: Vec<EntityDesc>,
    pub status: ScanStatus,
    /// The id the last answer carried; `0` before the first.
    pub last_id: u32,
    /// Every answer fed so far, in order.
    pub history: Ghost<Seq<Result<RawEntity, Error>>>,
}

impl EntityEnum {
    /// The machine's invariant: the decoded entities mirror the `Ok`
    /// answers of the transcript in order, the next query continues from
    /// the last answered id, and a terminated status matches the
    /// transcript's last answer.
    pub open spec fn wf(&self) -> bool {
        &&& (match self.status {
            ScanStatus::Running => self.history@.len() == self.entities@.len(),
            _ => self.history@.len() == self.entities@.len() + 1,
        })
        &&& (forall|i: int|
            0 <= i < self.entities@.len() ==> (self.history@[i] matches Ok(raw)
                && #[trigger] self.entities@[i] == entity_of(raw)))
        &&& (self.status is Running ==> self.last_id == (if self.entities@.len() == 0 {
            0u32
        } else {
            self.entities@.last().id
        }))
        &&& (self.status is Finished ==> (self.history@.last() matches Err(e) && e.kind
            is InvalidArgument))
        &&& (self.status matches ScanStatus::Failed(e) ==> self.history@.last() == Err::<
            RawEntity,
            Error,
        >(e) && !(e.kind is InvalidArgument))
    }

    /// A fresh enumeration: nothing queried yet.
    pub fn new() -> (r: EntityEnum)
        ensures
            r.wf(),
            r.entities@.len() == 0,
            r.status is Running,
            r.history@.len() == 0,
    {
        EntityEnum {
            entities: Vec::new(),
            status: ScanStatus::Running,
            last_id: 0,
            history: Ghost(Seq::empty()),
        }
    }

    /// The id the next query must carry: the last answered id with the
    /// "next" bit OR'd in.
    pub fn next_id(&self) -> (r: u32)
        requires
            self.status is Running,
        ensures
            r == self.last_id | ENT_ID_FLAG_NEXT,
    {
        self.last_id | ENT_ID_FLAG_NEXT
    }

    /// Whether the enumeration still wants a query.
    pub fn is_running(&self) -> (r: bool)
        ensures
            r == (self.status is Running),
    {
        match self.status {
            ScanStatus::Running => true,
            _ => false,
        }
    }

    /// Consumes the answer to the pending query: a record is decoded and
    /// collected and the enumeration continues from its id; the
    /// `InvalidArgument` sentinel finishes the list, an empty one included;
    /// any other error fails the enumeration with that error.
    pub fn feed(self, resp: Result<RawEntity, Error>) -> (r: EntityEnum)
        requires
            self.wf(),
            self.status is Running,
        ensures
            r.wf(),
            r.history@ == self.history@.push(resp),
            match resp {
                Ok(raw) => {
                    &&& r.status is Running
                    &&& r.entities@ == self.entities@.push(entity_of(raw))
                    &&& r.last_id == raw.id
                },
                Err(e) => r.entities@ == self.entities@ && (if e.kind is InvalidArgument {
                    r.status is Finished
                } else {
                    r.status == ScanStatus::Failed(e)
                }),
            },
    {
        let EntityEnum { mut entities, status, last_id, history } = self;
        let new_history: Ghost<Seq<Result<RawEntity, Error>>> = Ghost(history@.push(resp));
        match resp {
            Ok(raw) => {
                let id = raw.id;
                entities.push(EntityDesc::from_raw(raw));
                EntityEnum {
                    entities,
                    status: ScanStatus::Running,
                    last_id: id,
                    history: new_history,
                }
            },
            Err(e) => {
                if e.kind == ErrorKind::InvalidArgument {
                    EntityEnum {
                        entities,
                        status: ScanStatus::Finished,
                        last_id,
                        history: new_history,
                    }
                } else {
                    EntityEnum {
                        entities,
                        status: ScanStatus::Failed(e),
                        last_id,
                        history: new_history,
                    }
                }
            },
        }
    }

    /// Takes the outcome of a terminated enumeration: the decoded entities
    /// in discovery order, or the error that ended it.
    pub fn into_result(self) -> (r: Result<Vec<EntityDesc>, Error>)
        requires
            self.wf(),
            !(self.status is Running),
        ensures
            self.status is Finished ==> (r matches Ok(v) && v@ == self.entities@),
            self.status matches ScanStatus::Failed(e) ==> r == Err::<Vec<EntityDesc>, Error>(e),
    {
        match self.status {
            ScanStatus::Finished => Ok(self.entities),
            ScanStatus::Failed(e) => Err(e),
            ScanStatus::Running => unreached(),
        }
    }
}

/// The layout of one link-enumeration request: the entity it names, and
/// the receiving-buffer lengths its declared counts call for.
#[derive(Clone, Copy, Debug, PartialEq, Eq, Structural)]
pub struct LinksQuery {
    pub entity_id: u32,
    /// Exact length, in records, of the pad receiving buffer.
    pub pads: u16,
    /// Exact length, in records, of the link receiving buffer.
    pub links: u16,
}

/// Lays out the link-enumeration request for an entity: one request naming
/// the entity's id, with receiving buffers sized exactly to its declared
/// pad and link counts.
pub fn links_query(entity: &EntityDesc) -> (r: LinksQuery)
    ensures
        r.entity_id == entity.id,
        r.pads == entity.pads,
        r.links == entity.links,
{
    LinksQuery { entity_id: entity.id, pads: entity.pads, links: entity.links }
}

/// The flags a link-reconfiguration request submits: the link's flags with
/// the enabled bit set or cleared.
pub open spec fn setup_flags(flags: u32, enabled: bool) -> u32 {
    if enabled {
        flags | LNK_FL_ENABLED
    } else {
        flags & !LNK_FL_ENABLED
    }
}

/// Lays out a link-reconfiguration request that toggles the Enabled bit.
///
/// A link carrying the Immutable flag cannot be reconfigured: whatever
/// `enabled` says, that is a violation of the protocol's precondition,
/// rejected here — before any device request — with
/// `PreconditionViolation`. For a mutable link the request mirrors the
/// link's pads and carries its flags with the Enabled bit toggled; the
/// device may still refuse the submitted request (for instance with Busy
/// when a conflicting link at the sink pad is enabled, or when a
/// non-Dynamic link is reconfigured while streaming), which surfaces as an
/// ordinary I/O error at the submission site.
pub fn prepare_setup_link(link: &Link, enabled: bool) -> (r: Result<RawLink, Error>)
    ensures
        has_bits(link.flags.bits, LNK_FL_IMMUTABLE) ==> r == Err::<RawLink, Error>(
            Error { kind: ErrorKind::PreconditionViolation, code: 0 },
        ),
        !has_bits(link.flags.bits, LNK_FL_IMMUTABLE) ==> r == Ok::<RawLink, Error>(
            RawLink {
                source: raw_of_pad(link.source),
                sink: raw_of_pad(link.sink),
                flags: setup_flags(link.flags.bits, enabled),
            },
        ),
{
    if link.flags.contains(LNK_FL_IMMUTABLE) {
        return Err(Error::new(ErrorKind::PreconditionViolation));
    }
    let flags: u32 = if enabled {
        link.flags.bits | LNK_FL_ENABLED
    } else {
        link.flags.bits & !LNK_FL_ENABLED
    };
    Ok(
        RawLink {
            source: RawPad { entity: link.source.entity, index: link.source.index, flags: link.source.flags.bits },
            sink: RawPad { entity: link.sink.entity, index: link.sink.index, flags: link.sink.flags.bits },
            flags,
        },
    )
}

} // verus!
