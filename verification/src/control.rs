use vstd::prelude::*;
use vstd::utf8::encode_utf8;

verus! {

// Numeric control-type codes of the wire protocol.
pub const CTRL_TYPE_INTEGER: u32 = 1;
pub const CTRL_TYPE_BOOLEAN: u32 = 2;
pub const CTRL_TYPE_MENU: u32 = 3;
pub const CTRL_TYPE_BUTTON: u32 = 4;
pub const CTRL_TYPE_INTEGER64: u32 = 5;
pub const CTRL_TYPE_CTRL_CLASS: u32 = 6;
pub const CTRL_TYPE_STRING: u32 = 7;
pub const CTRL_TYPE_BITMASK: u32 = 8;
pub const CTRL_TYPE_INTEGER_MENU: u32 = 9;
pub const CTRL_TYPE_U8: u32 = 0x0100;
pub const CTRL_TYPE_U16: u32 = 0x0101;
pub const CTRL_TYPE_U32: u32 = 0x0102;

/// The declared kind of a control, mirroring the protocol's type codes.
///
/// Compound codes other than the byte/word/double-word buffers are carried as
/// [`ControlType::CompoundPtr`]: an opaque, pointer-backed payload.
#[derive(Clone, Copy, Debug, PartialEq, Eq, Structural)]
pub enum ControlType {
    Integer,
    Boolean,
    Menu,
    Button,
    Integer64,
    CtrlClass,
    String,
    Bitmask,
    IntegerMenu,
    CompoundU8,
    CompoundU16,
    CompoundU32,
    CompoundPtr,
}

/// The control type encoded by a numeric code; `None` for a code this
/// library does not know.
pub open spec fn type_of_code(code: u32) -> Option<ControlType> {
    if code == CTRL_TYPE_INTEGER {
        Some(ControlType::Integer)
    } else if code == CTRL_TYPE_BOOLEAN {
        Some(ControlType::Boolean)
    } else if code == CTRL_TYPE_MENU {
        Some(ControlType::Menu)
    } else if code == CTRL_TYPE_BUTTON {
        Some(ControlType::Button)
    } else if code == CTRL_TYPE_INTEGER64 {
        Some(ControlType::Integer64)
    } else if code == CTRL_TYPE_CTRL_CLASS {
        Some(ControlType::CtrlClass)
    } else if code == CTRL_TYPE_STRING {
        Some(ControlType::String)
    } else if code == CTRL_TYPE_BITMASK {
        Some(ControlType::Bitmask)
    } else if code == CTRL_TYPE_INTEGER_MENU {
        Some(ControlType::IntegerMenu)
    } else if code == CTRL_TYPE_U8 {
        Some(ControlType::CompoundU8)
    } else if code == CTRL_TYPE_U16 {
        Some(ControlType::CompoundU16)
    } else if code == CTRL_TYPE_U32 {
        Some(ControlType::CompoundU32)
    } else if code >= 0x0100 {
        Some(ControlType::CompoundPtr)
    } else {
        None
    }
}

/// Whether a control of this type carries a menu-item list.
pub open spec fn is_menu_type(t: ControlType) -> bool {
    t is Menu || t is IntegerMenu
}

impl ControlType {
    /// Decodes a numeric type code.
    pub fn from_code(code: u32) -> (r: Option<ControlType>)
        ensures
            r == type_of_code(code),
    {
        if code == CTRL_TYPE_INTEGER {
            Some(ControlType::Integer)
        } else if code == CTRL_TYPE_BOOLEAN {
            Some(ControlType::Boolean)
        } else if code == CTRL_TYPE_MENU {
            Some(ControlType::Menu)
        } else if code == CTRL_TYPE_BUTTON {
            Some(ControlType::Button)
        } else if code == CTRL_TYPE_INTEGER64 {
            Some(ControlType::Integer64)
        } else if code == CTRL_TYPE_CTRL_CLASS {
            Some(ControlType::CtrlClass)
        } else if code == CTRL_TYPE_STRING {
            Some(ControlType::String)
        } else if code == CTRL_TYPE_BITMASK {
            Some(ControlType::Bitmask)
        } else if code == CTRL_TYPE_INTEGER_MENU {
            Some(ControlType::IntegerMenu)
        } else if code == CTRL_TYPE_U8 {
            Some(ControlType::CompoundU8)
        } else if code == CTRL_TYPE_U16 {
            Some(ControlType::CompoundU16)
        } else if code == CTRL_TYPE_U32 {
            Some(ControlType::CompoundU32)
        } else if code >= 0x0100 {
            Some(ControlType::CompoundPtr)
        } else {
            None
        }
    }

    /// Whether a control of this type carries a menu-item list.
    pub fn is_menu(&self) -> (r: bool)
        ensures
            r == is_menu_type(*self),
    {
        match self {
            ControlType::Menu => true,
            ControlType::IntegerMenu => true,
            _ => false,
        }
    }
}

/// One entry of a menu control: a label for `Menu` controls, a 64-bit value
/// for `IntegerMenu` controls.
#[derive(Clone, Debug, PartialEq, Eq)]
pub enum MenuItem {
    Name(String),
    Value(i64),
}

/// The value carried by a control, as a tagged union. Exactly one variant is
/// active; compound payloads travel with their explicit backing buffer.
#[derive(Clone, Debug, PartialEq, Eq)]
pub enum ControlValue {
    /// No value travels with the id.
    Empty,
    Integer(i64),
    Boolean(bool),
    String(String),
    CompoundU8(Vec<u8>),
    CompoundU16(Vec<u16>),
    CompoundU32(Vec<u32>),
    CompoundPtr(Vec<u8>),
}

/// Byte length of the backing buffer a value is submitted with. Scalar
/// values travel inside the record itself and need no buffer.
pub open spec fn payload_len(v: ControlValue) -> int {
    match v {
        ControlValue::Empty => 0,
        ControlValue::Integer(_) => 0,
        ControlValue::Boolean(_) => 0,
        ControlValue::String(s) => encode_utf8(s@).len() as int,
        ControlValue::CompoundU8(b) => b@.len() as int,
        ControlValue::CompoundU16(b) => 2 * b@.len() as int,
        ControlValue::CompoundU32(b) => 4 * b@.len() as int,
        ControlValue::CompoundPtr(b) => b@.len() as int,
    }
}

/// The scalar submitted in the record's 64-bit value field: the integer
/// itself, `1`/`0` for a boolean, `0` for everything else.
pub open spec fn scalar_of(v: ControlValue) -> i64 {
    match v {
        ControlValue::Integer(n) => n,
        ControlValue::Boolean(b) => if b {
            1
        } else {
            0
        },
        _ => 0,
    }
}

/// A control exchange: the control's numeric id paired with a value.
#[derive(Clone, Debug, PartialEq, Eq)]
pub struct Control {
    pub id: u32,
    pub value: ControlValue,
}

/// Whether index `i` lies inside `[min, max]` and on the declared step grid.
pub open spec fn menu_index_ok(i: u32, min: i64, max: i64, step: u64) -> bool {
    &&& min <= i <= max
    &&& (i - min) % (step as int) == 0
}

/// Whether every recorded menu item sits on the declared index grid.
pub open spec fn menu_items_aligned(
    items: Seq<(u32, MenuItem)>,
    min: i64,
    max: i64,
    step: u64,
) -> bool {
    forall|k: int|
        0 <= k < items.len() ==> menu_index_ok(#[trigger] items[k].0, min, max, step)
}

/// Describes one configurable parameter of a device.
#[derive(Clone, Debug, PartialEq, Eq)]
pub struct Description {
    /// Opaque numeric key; its top 16 bits name the control's class.
    pub id: u32,
    pub name: String,
    pub typ: ControlType,
    pub minimum: i64,
    pub maximum: i64,
    pub step: u64,
    /// Present exactly for `Menu`/`IntegerMenu` controls: the `(index, item)`
    /// pairs the driver accepted, each index inside `[minimum, maximum]` and
    /// on the `step` grid.
    pub items: Option<Vec<(u32, MenuItem)>>,
}

impl Description {
    /// The structural invariant of a description: the menu-item list is
    /// present if and only if the type is a menu type, and every recorded
    /// index obeys the declared bounds and step.
    pub open spec fn wf(&self) -> bool {
        &&& (self.items is Some <==> is_menu_type(self.typ))
        &&& (self.items matches Some(items) ==> menu_items_aligned(
            items@,
            self.minimum,
            self.maximum,
            self.step,
        ))
    }
}

} // verus!
