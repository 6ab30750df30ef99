use vstd::prelude::*;

use crate::control::{
    is_menu_type, menu_items_aligned, payload_len, scalar_of, type_of_code, Control, ControlType,
    ControlValue, Description, MenuItem,
};
use crate::error::{Error, ErrorKind};

verus! {

// Continuation bits OR'd into a query id so the driver advances to the next
// control, and the next compound control, on each query.
pub const CTRL_FLAG_NEXT_CTRL: u32 = 0x80000000;
pub const CTRL_FLAG_NEXT_COMPOUND: u32 = 0x40000000;

/// The class a control id belongs to: the top 16 bits of the id.
pub open spec fn class_of(id: u32) -> u32 {
    id & 0xFFFF0000
}

/// The class a control id belongs to: the top 16 bits of the id.
pub fn control_class(id: u32) -> (r: u32)
    ensures
        r == class_of(id),
{
    id & 0xFFFF0000
}

/// Interprets the raw record returned by a current-value query according to
/// the declared type of the queried control.
///
/// `value64` is the record's 64-bit value field, `value32` its narrower
/// 32-bit field. A boolean control reads as `true` exactly when the raw
/// 32-bit value equals 1; every other raw value, 0 included, reads as
/// `false`. Types other than the integer, menu and boolean kinds are not
/// supported by value queries and yield an `Unsupported` error.
pub fn interpret_control(desc: &Description, value64: i64, value32: i32) -> (r: Result<
    Control,
    Error,
>)
    ensures
        desc.typ is Integer64 ==> r == Ok::<Control, Error>(
            Control { id: desc.id, value: ControlValue::Integer(value64) },
        ),
        desc.typ is Integer || desc.typ is Menu ==> r == Ok::<Control, Error>(
            Control { id: desc.id, value: ControlValue::Integer(value32 as i64) },
        ),
        desc.typ is Boolean ==> r == Ok::<Control, Error>(
            Control { id: desc.id, value: ControlValue::Boolean(value32 == 1) },
        ),
        !(desc.typ is Integer64 || desc.typ is Integer || desc.typ is Menu
            || desc.typ is Boolean) ==> r == Err::<Control, Error>(
            Error { kind: ErrorKind::Unsupported, code: 0 },
        ),
{
    match desc.typ {
        ControlType::Integer64 => Ok(Control { id: desc.id, value: ControlValue::Integer(value64) }),
        ControlType::Integer => Ok(
            Control { id: desc.id, value: ControlValue::Integer(value32 as i64) },
        ),
        ControlType::Menu => Ok(
            Control { id: desc.id, value: ControlValue::Integer(value32 as i64) },
        ),
        ControlType::Boolean => Ok(
            Control { id: desc.id, value: ControlValue::Boolean(value32 == 1) },
        ),
        _ => Err(Error::new(ErrorKind::Unsupported)),
    }
}

/// One control as it heads onto the wire: the id, the byte length of its
/// backing buffer, and the record's 64-bit scalar field. The backing buffer
/// itself stays with the caller's [`Control`] value.
#[derive(Clone, Copy, Debug, PartialEq, Eq, Structural)]
pub struct WireControl {
    pub id: u32,
    pub size: u32,
    pub value64: i64,
}

/// The wire form of a control: size is the payload's byte length, the scalar
/// field carries integers and booleans.
pub open spec fn wire_of(c: Control) -> WireControl {
    WireControl {
        id: c.id,
        size: payload_len(c.value) as u32,
        value64: scalar_of(c.value),
    }
}

/// A validated batch, ready for one atomic submission: the shared control
/// class and the per-control wire records, in the order given.
#[derive(Clone, Debug, PartialEq, Eq)]
pub struct ControlBatch {
    /// The class shared by every control of the batch: the first control's
    /// class, threaded into the request metadata that selects the control
    /// set.
    pub which: u32,
    pub entries: Vec<WireControl>,
}

impl ControlValue {
    /// Byte length of the backing buffer this value is submitted with.
    pub fn wire_size(&self) -> (r: u32)
        requires
            payload_len(*self) <= u32::MAX,
        ensures
            r == payload_len(*self),
    {
        match self {
            ControlValue::Empty => 0,
            ControlValue::Integer(_) => 0,
            ControlValue::Boolean(_) => 0,
            ControlValue::String(s) => s.as_str().len() as u32,
            ControlValue::CompoundU8(b) => b.len() as u32,
            ControlValue::CompoundU16(b) => (b.len() as u32) * 2,
            ControlValue::CompoundU32(b) => (b.len() as u32) * 4,
            ControlValue::CompoundPtr(b) => b.len() as u32,
        }
    }

    /// The scalar submitted in the record's 64-bit value field.
    pub fn scalar(&self) -> (r: i64)
        ensures
            r == scalar_of(*self),
    {
        match self {
            ControlValue::Integer(n) => *n,
            ControlValue::Boolean(b) => if *b {
                1
            } else {
                0
            },
            _ => 0,
        }
    }
}

/// Validates a batch of controls and lays it out for one atomic submission.
///
/// A batch must be non-empty and confined to a single control class; both
/// violations are rejected with `InvalidArgument` before any device
/// interaction. On success the batch's class equals the first control's
/// class, and the wire records mirror the given controls in order.
pub fn prepare_controls(ctrls: &Vec<Control>) -> (r: Result<ControlBatch, Error>)
    requires
        forall|k: int| 0 <= k < ctrls@.len() ==> payload_len(ctrls@[k].value) <= u32::MAX,
    ensures
        match r {
            Ok(batch) => {
                &&& ctrls@.len() > 0
                &&& forall|k: int|
                    0 <= k < ctrls@.len() ==> class_of(#[trigger] ctrls@[k].id) == class_of(
                        ctrls@[0].id,
                    )
                &&& batch.which == class_of(ctrls@[0].id)
                &&& batch.entries@.len() == ctrls@.len()
                &&& forall|k: int|
                    0 <= k < ctrls@.len() ==> batch.entries@[k] == wire_of(#[trigger] ctrls@[k])
            },
            Err(e) => {
                &&& (ctrls@.len() == 0 || exists|k: int|
                    0 <= k < ctrls@.len() && class_of(#[trigger] ctrls@[k].id) != class_of(
                        ctrls@[0].id,
                    ))
                &&& e == (Error { kind: ErrorKind::InvalidArgument, code: 0 })
            },
        },
{
    if ctrls.len() == 0 {
        return Err(Error::new(ErrorKind::InvalidArgument));
    }
    let which = control_class(ctrls[0].id);
    let mut entries: Vec<WireControl> = Vec::new();
    let mut i: usize = 0;
    while i < ctrls.len()
        invariant
            0 <= i <= ctrls@.len(),
            ctrls@.len() > 0,
            which == class_of(ctrls@[0].id),
            forall|k: int| 0 <= k < i ==> class_of(#[trigger] ctrls@[k].id) == which,
            entries@.len() == i,
            forall|k: int| 0 <= k < i ==> entries@[k] == wire_of(#[trigger] ctrls@[k]),
            forall|k: int| 0 <= k < ctrls@.len() ==> payload_len(ctrls@[k].value) <= u32::MAX,
        decreases ctrls@.len() - i,
    {
        let c = &ctrls[i];
        if control_class(c.id) != which {
            return Err(Error::new(ErrorKind::InvalidArgument));
        }
        entries.push(
            WireControl { id: c.id, size: c.value.wire_size(), value64: c.value.scalar() },
        );
        i = i + 1;
    }
    Ok(ControlBatch { which, entries })
}



/// The raw record a "query next control" request answers with, already
/// lifted to plain values: the control's real id, its decoded name, the
/// numeric type code, and the declared bounds.
#[derive(Clone, Debug, PartialEq, Eq)]
pub struct RawDescription {
    pub id: u32,
    pub name: String,
    pub type_code: u32,
    pub minimum: i64,
    pub maximum: i64,
    pub step: u64,
}

/// The description a raw record decodes to before any menu items are
/// attached.
pub open spec fn bare_description(raw: RawDescription, t: ControlType) -> Description {
    Description {
        id: raw.id,
        name: raw.name,
        typ: t,
        minimum: raw.minimum,
        maximum: raw.maximum,
        step: raw.step,
        items: Option::None,
    }
}

/// Whether `d` is `pending` completed with exactly the menu items `items`.
pub open spec fn finished_menu_matches(
    d: Description,
    pending: Description,
    items: Seq<(u32, MenuItem)>,
) -> bool {
    &&& d.id == pending.id
    &&& d.name == pending.name
    &&& d.typ == pending.typ
    &&& d.minimum == pending.minimum
    &&& d.maximum == pending.maximum
    &&& d.step == pending.step
    &&& d.items matches Some(v) && v@ == items
}

/// What the loop driving a [`ControlEnum`] should do next.
#[derive(Clone, Copy, Debug, PartialEq, Eq, Structural)]
pub enum ControlAction {
    /// Issue a "query next control" request with this id; the continuation
    /// bits are already OR'd in.
    QueryControl { id: u32 },
    /// Query the menu item of control `id` at `index`.
    QueryMenuItem { id: u32, index: u32 },
    /// The enumeration is over; take the result.
    Stop,
}

/// The internal position of a [`ControlEnum`].
#[derive(Clone, Debug, PartialEq, Eq)]
pub enum ControlPhase {
    /// Waiting for the answer to a "query next control" request; `last_id`
    /// is the id the last answer carried, `0` before the first.
    Query { last_id: u32 },
    /// Walking the index grid of the menu control just described; `pos` is
    /// the next index to probe.
    Menu { pending: Description, pos: u64 },
    /// The driver reported the end of the list.
    Done,
    /// A response ended the enumeration with an error.
    Failed { err: Error },
}

/// The control-enumeration state machine.
///
/// The protocol walks an id-keyed list: each "query next" request carries
/// the previous answer's id with two continuation bits OR'd in, and the
/// driver answers with the following control. An `InvalidArgument` answer
/// after at least one control is the end-of-list sentinel; on the very first
/// request it is a real error (it distinguishes "no control support at all"
/// from "supported but empty"), as is any other error kind at any point.
/// Menu controls are completed by probing every index of their declared
/// `[minimum, maximum]` grid in steps of `step`; an index the driver rejects
/// is skipped, not fatal.
#[derive(Clone, Debug, PartialEq, Eq)]
pub struct ControlEnum {
    /// Completed descriptions, in discovery order.
    pub controls: Vec<Description>,
    /// The items recorded so far for the menu control being walked.
    pub menu_items: Vec<(u32, MenuItem)>,
    pub phase: ControlPhase,
}

impl ControlEnum {
    /// The machine's invariant: every completed description is well formed,
    /// and while a menu is being walked the cursor sits on the declared
    /// index grid with only grid items recorded.
    pub open spec fn wf(&self) -> bool {
        &&& (forall|k: int|
            0 <= k < self.controls@.len() ==> (#[trigger] self.controls@[k]).wf())
        &&& match self.phase {
            ControlPhase::Menu { pending, pos } => {
                &&& is_menu_type(pending.typ)
                &&& pending.items is None
                &&& 0 <= pending.minimum
                &&& pending.maximum <= u32::MAX
                &&& 1 <= pending.step <= u32::MAX
                &&& pending.minimum <= pos <= pending.maximum
                &&& (pos - pending.minimum) % (pending.step as int) == 0
                &&& menu_items_aligned(
                    self.menu_items@,
                    pending.minimum,
                    pending.maximum,
                    pending.step,
                )
            },
            _ => true,
        }
    }

    /// A fresh enumeration: no controls yet, first query id `0`.
    pub fn new() -> (r: ControlEnum)
        ensures
            r.wf(),
            r.controls@.len() == 0,
            r.phase == (ControlPhase::Query { last_id: 0u32 }),
    {
        ControlEnum {
            controls: Vec::new(),
            menu_items: Vec::new(),
            phase: ControlPhase::Query { last_id: 0 },
        }
    }

    /// What the driving loop should do next.
    pub fn next_action(&self) -> (a: ControlAction)
        requires
            self.wf(),
        ensures
            (self.phase matches ControlPhase::Query { last_id } ==> a == (ControlAction::QueryControl {
                id: last_id | CTRL_FLAG_NEXT_CTRL | CTRL_FLAG_NEXT_COMPOUND,
            })),
            (self.phase matches ControlPhase::Menu { pending, pos } ==> a == (ControlAction::QueryMenuItem {
                id: pending.id,
                index: pos as u32,
            })),
            (self.phase is Done || self.phase is Failed) ==> a is Stop,
    {
        match &self.phase {
            ControlPhase::Query { last_id } => ControlAction::QueryControl {
                id: *last_id | CTRL_FLAG_NEXT_CTRL | CTRL_FLAG_NEXT_COMPOUND,
            },
            ControlPhase::Menu { pending, pos } => ControlAction::QueryMenuItem {
                id: pending.id,
                index: *pos as u32,
            },
            _ => ControlAction::Stop,
        }
    }

    /// Consumes the answer to a "query next control" request.
    ///
    /// A successful answer whose type is not a menu kind completes a
    /// description at once. A menu-typed answer with an empty index range
    /// completes with an empty item list; otherwise the machine turns to
    /// walking the menu grid. An error on the very first request, or an
    /// error other than `InvalidArgument` at any point, fails the
    /// enumeration with that error; an `InvalidArgument` answer after at
    /// least one control ends it normally.
    pub fn feed_ctrl(self, resp: Result<RawDescription, Error>) -> (r: ControlEnum)
        requires
            self.wf(),
            self.phase is Query,
            resp matches Ok(raw) ==> type_of_code(raw.type_code) is Some,
            resp matches Ok(raw) ==> type_of_code(raw.type_code) matches Some(t)
                ==> is_menu_type(t) ==> 1 <= raw.step <= u32::MAX && 0 <= raw.minimum
                && raw.maximum <= u32::MAX,
        ensures
            r.wf(),
            resp matches Err(e) ==> {
                &&& r.controls@ == self.controls@
                &&& (if self.controls@.len() == 0 || !(e.kind is InvalidArgument) {
                    r.phase == (ControlPhase::Failed { err: e })
                } else {
                    r.phase is Done
                })
            },
            resp matches Ok(raw) ==> type_of_code(raw.type_code) matches Some(t)
                ==> !is_menu_type(t) ==> {
                &&& r.controls@ == self.controls@.push(bare_description(raw, t))
                &&& r.phase == (ControlPhase::Query { last_id: raw.id })
            },
            resp matches Ok(raw) ==> type_of_code(raw.type_code) matches Some(t)
                ==> is_menu_type(t) && raw.minimum > raw.maximum ==> {
                &&& r.controls@.len() == self.controls@.len() + 1
                &&& (forall|k: int|
                    0 <= k < self.controls@.len() ==> r.controls@[k] == self.controls@[k])
                &&& finished_menu_matches(
                    r.controls@[self.controls@.len() as int],
                    bare_description(raw, t),
                    Seq::empty(),
                )
                &&& r.phase == (ControlPhase::Query { last_id: raw.id })
            },
            resp matches Ok(raw) ==> type_of_code(raw.type_code) matches Some(t)
                ==> is_menu_type(t) && raw.minimum <= raw.maximum ==> {
                &&& r.controls@ == self.controls@
                &&& r.phase matches ControlPhase::Menu { pending, pos } && pending
                    == bare_description(raw, t) && pos == raw.minimum
                &&& r.menu_items@.len() == 0
            },
    {
        let ControlEnum { mut controls, menu_items, phase } = self;
        match resp {
            Ok(raw) => {
                let t = match ControlType::from_code(raw.type_code) {
                    Some(t) => t,
                    None => unreached(),
                };
                if t.is_menu() {
                    if raw.minimum > raw.maximum {
                        let done = Description {
                            id: raw.id,
                            name: raw.name,
                            typ: t,
                            minimum: raw.minimum,
                            maximum: raw.maximum,
                            step: raw.step,
                            items: Some(Vec::new()),
                        };
                        controls.push(done);
                        ControlEnum {
                            controls,
                            menu_items,
                            phase: ControlPhase::Query { last_id: raw.id },
                        }
                    } else {
                        proof {
                            vstd::arithmetic::div_mod::lemma_small_mod(0nat, raw.step as nat);
                        }
                        let pos: u64 = raw.minimum as u64;
                        let pending = Description {
                            id: raw.id,
                            name: raw.name,
                            typ: t,
                            minimum: raw.minimum,
                            maximum: raw.maximum,
                            step: raw.step,
                            items: None,
                        };
                        ControlEnum {
                            controls,
                            menu_items: Vec::new(),
                            phase: ControlPhase::Menu { pending, pos },
                        }
                    }
                } else {
                    let done = Description {
                        id: raw.id,
                        name: raw.name,
                        typ: t,
                        minimum: raw.minimum,
                        maximum: raw.maximum,
                        step: raw.step,
                        items: None,
                    };
                    controls.push(done);
                    ControlEnum {
                        controls,
                        menu_items,
                        phase: ControlPhase::Query { last_id: raw.id },
                    }
                }
            },
            Err(e) => {
                if controls.len() == 0 || !(e.kind == ErrorKind::InvalidArgument) {
                    ControlEnum { controls, menu_items, phase: ControlPhase::Failed { err: e } }
                } else {
                    ControlEnum { controls, menu_items, phase: ControlPhase::Done }
                }
            },
        }
    }

    /// Consumes the answer to a menu-item query: `Some` records the item at
    /// the probed index, `None` stands for an index the driver rejected and
    /// skips it. Either way the cursor advances by `step`; past `maximum`
    /// the description is completed with the recorded items and the machine
    /// returns to querying controls.
    pub fn feed_menu(self, item: Option<MenuItem>) -> (r: ControlEnum)
        requires
            self.wf(),
            self.phase is Menu,
        ensures
            r.wf(),
            self.phase matches ControlPhase::Menu { pending, pos } ==> ({
                let recorded = match item {
                    Some(it) => self.menu_items@.push((pos as u32, it)),
                    None => self.menu_items@,
                };
                if pos + pending.step <= pending.maximum {
                    &&& r.phase matches ControlPhase::Menu { pending: p2, pos: pos2 } && p2
                        == pending && pos2 == pos + pending.step
                    &&& r.menu_items@ == recorded
                    &&& r.controls@ == self.controls@
                } else {
                    &&& r.phase == (ControlPhase::Query { last_id: pending.id })
                    &&& r.controls@.len() == self.controls@.len() + 1
                    &&& (forall|k: int|
                        0 <= k < self.controls@.len() ==> r.controls@[k] == self.controls@[k])
                    &&& finished_menu_matches(
                        r.controls@[self.controls@.len() as int],
                        pending,
                        recorded,
                    )
                }
            }),
    {
        let ControlEnum { mut controls, mut menu_items, phase } = self;
        match phase {
            ControlPhase::Menu { pending, pos } => {
                let idx: u32 = pos as u32;
                match item {
                    Some(it) => {
                        menu_items.push((idx, it));
                    },
                    None => {},
                }
                proof {
                    vstd::arithmetic::div_mod::lemma_mod_add_multiples_vanish(
                        pos - pending.minimum,
                        pending.step as int,
                    );
                }
                let next: u64 = pos + pending.step;
                if next <= pending.maximum as u64 {
                    ControlEnum {
                        controls,
                        menu_items,
                        phase: ControlPhase::Menu { pending, pos: next },
                    }
                } else {
                    let done = Description {
                        id: pending.id,
                        name: pending.name,
                        typ: pending.typ,
                        minimum: pending.minimum,
                        maximum: pending.maximum,
                        step: pending.step,
                        items: Some(menu_items),
                    };
                    controls.push(done);
                    ControlEnum {
                        controls,
                        menu_items: Vec::new(),
                        phase: ControlPhase::Query { last_id: pending.id },
                    }
                }
            },
            _ => unreached(),
        }
    }

    /// Takes the outcome of a finished enumeration: the completed, well
    /// formed descriptions in discovery order, or the error that ended it.
    pub fn into_result(self) -> (r: Result<Vec<Description>, Error>)
        requires
            self.wf(),
            self.phase is Done || self.phase is Failed,
        ensures
            self.phase is Done ==> (r matches Ok(v) && v@ == self.controls@),
            self.phase matches ControlPhase::Failed { err } ==> r == Err::<Vec<Description>, Error>(
                err,
            ),
            r matches Ok(v) ==> forall|k: int| 0 <= k < v@.len() ==> (#[trigger] v@[k]).wf(),
    {
        match self.phase {
            ControlPhase::Done => Ok(self.controls),
            ControlPhase::Failed { err } => Err(err),
            _ => unreached(),
        }
    }
}

} // verus!
