//! Input messages and their classification.
//!
//! The native event source delivers untyped [`RawEvent`] records: a numeric
//! message identifier plus a payload whose meaning depends on that
//! identifier.  The classifier turns one record into exactly one
//! `(ExMessageType, Message)` pair, decoding the payload strictly by the
//! identifier, never by inspecting payload bits first.  An identifier
//! outside the known closed set is a hard error, never a partial decode.

use vstd::prelude::*;

use crate::keycode::KeyCode;

verus! {

/// Identifier of a key-press message.
pub const MSG_KEY_DOWN: u32 = 0x0100;

/// Identifier of a key-release message.
pub const MSG_KEY_UP: u32 = 0x0101;

/// Identifier of a character-input message.
pub const MSG_CHAR: u32 = 0x0102;

/// Identifier of a window-activation message.
pub const MSG_ACTIVATE: u32 = 0x0006;

/// Identifier of a window-move message.
pub const MSG_MOVE: u32 = 0x0003;

/// Identifier of a window-resize message.
pub const MSG_SIZE: u32 = 0x0005;

/// Identifier of a mouse-move message.
pub const MSG_MOUSE_MOVE: u32 = 0x0200;

/// Identifier of a mouse-wheel message.
pub const MSG_MOUSE_WHEEL: u32 = 0x020A;

/// Identifier of a left-button-press message.
pub const MSG_LBUTTON_DOWN: u32 = 0x0201;

/// Identifier of a left-button-release message.
pub const MSG_LBUTTON_UP: u32 = 0x0202;

/// Identifier of a left-button-double-click message.
pub const MSG_LBUTTON_DBLCLK: u32 = 0x0203;

/// Identifier of a right-button-press message.
pub const MSG_RBUTTON_DOWN: u32 = 0x0204;

/// Identifier of a right-button-release message.
pub const MSG_RBUTTON_UP: u32 = 0x0205;

/// Identifier of a right-button-double-click message.
pub const MSG_RBUTTON_DBLCLK: u32 = 0x0206;

/// Identifier of a middle-button-press message.
pub const MSG_MBUTTON_DOWN: u32 = 0x0207;

/// Identifier of a middle-button-release message.
pub const MSG_MBUTTON_UP: u32 = 0x0208;

/// Identifier of a middle-button-double-click message.
pub const MSG_MBUTTON_DBLCLK: u32 = 0x0209;

/// One untyped record as the native event source delivers it, prior to
/// classification: the message identifier and the flattened payload.
/// Which payload fields are meaningful depends on the identifier alone.
#[derive(Debug, Clone, Copy, PartialEq, Eq, Structural)]
pub struct RawEvent {
    /// The numeric message identifier.
    pub message: u32,
    /// Whether the control key was held (mouse messages).
    pub ctrl: bool,
    /// Whether the shift key was held (mouse messages).
    pub shift: bool,
    /// Whether the left button was down (mouse messages).
    pub lbutton: bool,
    /// Whether the middle button was down (mouse messages).
    pub mbutton: bool,
    /// Whether the right button was down (mouse messages).
    pub rbutton: bool,
    /// Cursor x position (mouse messages).
    pub x: u16,
    /// Cursor y position (mouse messages).
    pub y: u16,
    /// Wheel delta (mouse messages).
    pub wheel: u16,
    /// Raw virtual key code (keyboard messages).
    pub vkcode: u8,
    /// Hardware scan code (keyboard messages).
    pub scancode: u8,
    /// Whether the key is an extended key (keyboard messages).
    pub extended: bool,
    /// Whether the key was already down before this message (keyboard messages).
    pub prevdown: bool,
    /// The character code unit (character messages).
    pub ch: u16,
    /// First opaque parameter (window messages).
    pub wparam: usize,
    /// Second opaque parameter (window messages).
    pub lparam: isize,
}

/// A decoded input message, one variant family per message kind.
#[derive(Debug, Clone, Copy, PartialEq, Eq, Structural)]
pub enum Message {
    /// A mouse message: button and modifier state, position and wheel delta.
    Mouse {
        /// Whether the control key was held.
        ctrl: bool,
        /// Whether the shift key was held.
        shift: bool,
        /// Whether the left button was down.
        lbutton: bool,
        /// Whether the middle button was down.
        mbutton: bool,
        /// Whether the right button was down.
        rbutton: bool,
        /// Cursor x position.
        x: u16,
        /// Cursor y position.
        y: u16,
        /// Wheel delta.
        wheel: u16,
    },
    /// A keyboard message: the decoded key plus scan code and status bits.
    KeyBoard {
        /// The decoded key.
        vkcode: KeyCode,
        /// Hardware scan code.
        scancode: u8,
        /// Whether the key is an extended key.
        extended: bool,
        /// Whether the key was already down before this message.
        prevdown: bool,
    },
    /// A character message carrying one code unit.
    Char(u16),
    /// A window message; its two parameters pass through uninterpreted.
    Window {
        /// First opaque parameter.
        wparam: usize,
        /// Second opaque parameter.
        lparam: isize,
    },
}

/// The closed set of message kinds the classifier understands; each kind
/// corresponds to exactly one native message identifier.
#[derive(Debug, Clone, Copy, PartialEq, Eq, Structural)]
pub enum ExMessageType {
    /// A key was pressed.
    KeyDown,
    /// A key was released.
    KeyUp,
    /// A character was entered.
    Char,
    /// The window was activated or deactivated.
    Activate,
    /// The window was moved.
    Move,
    /// The window was resized.
    Size,
    /// The mouse moved.
    MouseMove,
    /// The mouse wheel turned.
    MouseWheel,
    /// The left mouse button was pressed.
    LButtonDown,
    /// The left mouse button was released.
    LButtonUp,
    /// The left mouse button was double-clicked.
    LButtonDBLck,
    /// The middle mouse button was pressed.
    MButtonDown,
    /// The middle mouse button was released.
    MButtonUp,
    /// The middle mouse button was double-clicked.
    MButtonDBLck,
    /// The right mouse button was pressed.
    RButtonDown,
    /// The right mouse button was released.
    RButtonUp,
    /// The right mouse button was double-clicked.
    RButtonDBLck,
}

/// A category of messages that the source surfaces: everything, or one
/// variant family only.
#[derive(Debug, Clone, Copy, PartialEq, Eq, Structural)]
pub enum MessageFilter {
    /// Surface every message.
    All,
    /// Surface mouse messages only.
    Mouse,
    /// Surface keyboard messages only.
    KeyBoard,
    /// Surface character messages only.
    Char,
    /// Surface window messages only.
    Window,
}

/// A classified message: its kind and the decoded payload.
#[derive(Debug, Clone, Copy, PartialEq, Eq, Structural)]
pub struct ExMessage {
    /// The message kind.
    pub ty: ExMessageType,
    /// The decoded payload.
    pub msg: Message,
}

/// An error of the input system.
#[derive(Debug, Clone, Copy, PartialEq, Eq, Structural)]
pub enum InputError {
    /// The native source produced a message identifier outside the known
    /// closed set; the payload is never decoded in that case.
    UnrecognizedEventKind(u32),
}

/// The message kind named by an identifier, or `None` outside the closed set.
pub open spec fn kind_of(code: u32) -> Option<ExMessageType> {
    if code == MSG_KEY_DOWN {
        Some(ExMessageType::KeyDown)
    } else if code == MSG_KEY_UP {
        Some(ExMessageType::KeyUp)
    } else if code == MSG_CHAR {
        Some(ExMessageType::Char)
    } else if code == MSG_ACTIVATE {
        Some(ExMessageType::Activate)
    } else if code == MSG_MOVE {
        Some(ExMessageType::Move)
    } else if code == MSG_SIZE {
        Some(ExMessageType::Size)
    } else if code == MSG_MOUSE_MOVE {
        Some(ExMessageType::MouseMove)
    } else if code == MSG_MOUSE_WHEEL {
        Some(ExMessageType::MouseWheel)
    } else if code == MSG_LBUTTON_DOWN {
        Some(ExMessageType::LButtonDown)
    } else if code == MSG_LBUTTON_UP {
        Some(ExMessageType::LButtonUp)
    } else if code == MSG_LBUTTON_DBLCLK {
        Some(ExMessageType::LButtonDBLck)
    } else if code == MSG_MBUTTON_DOWN {
        Some(ExMessageType::MButtonDown)
    } else if code == MSG_MBUTTON_UP {
        Some(ExMessageType::MButtonUp)
    } else if code == MSG_MBUTTON_DBLCLK {
        Some(ExMessageType::MButtonDBLck)
    } else if code == MSG_RBUTTON_DOWN {
        Some(ExMessageType::RButtonDown)
    } else if code == MSG_RBUTTON_UP {
        Some(ExMessageType::RButtonUp)
    } else if code == MSG_RBUTTON_DBLCLK {
        Some(ExMessageType::RButtonDBLck)
    } else {
        None
    }
}

/// The variant family that a message kind decodes into, named by the
/// filter that surfaces it.  The mapping is fixed: key messages decode to
/// `KeyBoard`, mouse messages to `Mouse`, character messages to `Char`,
/// window messages to `Window`.
pub open spec fn family_of(k: ExMessageType) -> MessageFilter {
    match k {
        ExMessageType::KeyDown => MessageFilter::KeyBoard,
        ExMessageType::KeyUp => MessageFilter::KeyBoard,
        ExMessageType::Char => MessageFilter::Char,
        ExMessageType::Activate => MessageFilter::Window,
        ExMessageType::Move => MessageFilter::Window,
        ExMessageType::Size => MessageFilter::Window,
        ExMessageType::MouseMove => MessageFilter::Mouse,
        ExMessageType::MouseWheel => MessageFilter::Mouse,
        ExMessageType::LButtonDown => MessageFilter::Mouse,
        ExMessageType::LButtonUp => MessageFilter::Mouse,
        ExMessageType::LButtonDBLck => MessageFilter::Mouse,
        ExMessageType::MButtonDown => MessageFilter::Mouse,
        ExMessageType::MButtonUp => MessageFilter::Mouse,
        ExMessageType::MButtonDBLck => MessageFilter::Mouse,
        ExMessageType::RButtonDown => MessageFilter::Mouse,
        ExMessageType::RButtonUp => MessageFilter::Mouse,
        ExMessageType::RButtonDBLck => MessageFilter::Mouse,
    }
}

/// Whether a record with the given identifier is surfaced under a filter.
/// `All` admits every record; a family filter admits exactly the records
/// whose identifier names a kind of that family.
pub open spec fn admits_code(f: MessageFilter, code: u32) -> bool {
    f == MessageFilter::All || (kind_of(code) matches Some(k) && family_of(k) == f)
}

/// The payload of a record, decoded according to a message kind.
pub open spec fn decode(k: ExMessageType, r: RawEvent) -> Message {
    match family_of(k) {
        MessageFilter::Mouse => Message::Mouse {
            ctrl: r.ctrl,
            shift: r.shift,
            lbutton: r.lbutton,
            mbutton: r.mbutton,
            rbutton: r.rbutton,
            x: r.x,
            y: r.y,
            wheel: r.wheel,
        },
        MessageFilter::KeyBoard => Message::KeyBoard {
            vkcode: KeyCode::of_raw(r.vkcode),
            scancode: r.scancode,
            extended: r.extended,
            prevdown: r.prevdown,
        },
        MessageFilter::Char => Message::Char(r.ch),
        MessageFilter::Window => Message::Window { wparam: r.wparam, lparam: r.lparam },
        MessageFilter::All => Message::Window { wparam: r.wparam, lparam: r.lparam },
    }
}

/// The classified form of a record whose identifier is in the closed set.
pub open spec fn classified(r: RawEvent) -> ExMessage
    recommends
        kind_of(r.message) is Some,
{
    ExMessage { ty: kind_of(r.message)->Some_0, msg: decode(kind_of(r.message)->Some_0, r) }
}

impl MessageFilter {
    /// Whether this filter surfaces a record with the given identifier.
    pub fn admits(&self, code: u32) -> (b: bool)
        ensures
            b == admits_code(*self, code),
    {
        match self {
            MessageFilter::All => true,
            _ => {
                let kind = match_kind(code);
                match kind {
                    Some(k) => {
                        let fam = k.family();
                        fam == *self
                    },
                    None => false,
                }
            },
        }
    }
}

impl ExMessageType {
    /// The filter family that this kind belongs to.
    pub fn family(&self) -> (f: MessageFilter)
        ensures
            f == family_of(*self),
    {
        match self {
            ExMessageType::KeyDown => MessageFilter::KeyBoard,
            ExMessageType::KeyUp => MessageFilter::KeyBoard,
            ExMessageType::Char => MessageFilter::Char,
            ExMessageType::Activate => MessageFilter::Window,
            ExMessageType::Move => MessageFilter::Window,
            ExMessageType::Size => MessageFilter::Window,
            ExMessageType::MouseMove => MessageFilter::Mouse,
            ExMessageType::MouseWheel => MessageFilter::Mouse,
            ExMessageType::LButtonDown => MessageFilter::Mouse,
            ExMessageType::LButtonUp => MessageFilter::Mouse,
            ExMessageType::LButtonDBLck => MessageFilter::Mouse,
            ExMessageType::MButtonDown => MessageFilter::Mouse,
            ExMessageType::MButtonUp => MessageFilter::Mouse,
            ExMessageType::MButtonDBLck => MessageFilter::Mouse,
            ExMessageType::RButtonDown => MessageFilter::Mouse,
            ExMessageType::RButtonUp => MessageFilter::Mouse,
            ExMessageType::RButtonDBLck => MessageFilter::Mouse,
        }
    }
}

/// The message kind named by an identifier, or `None` outside the closed set.
fn match_kind(code: u32) -> (k: Option<ExMessageType>)
    ensures
        k == kind_of(code),
{
    if code == MSG_KEY_DOWN {
        Some(ExMessageType::KeyDown)
    } else if code == MSG_KEY_UP {
        Some(ExMessageType::KeyUp)
    } else if code == MSG_CHAR {
        Some(ExMessageType::Char)
    } else if code == MSG_ACTIVATE {
        Some(ExMessageType::Activate)
    } else if code == MSG_MOVE {
        Some(ExMessageType::Move)
    } else if code == MSG_SIZE {
        Some(ExMessageType::Size)
    } else if code == MSG_MOUSE_MOVE {
        Some(ExMessageType::MouseMove)
    } else if code == MSG_MOUSE_WHEEL {
        Some(ExMessageType::MouseWheel)
    } else if code == MSG_LBUTTON_DOWN {
        Some(ExMessageType::LButtonDown)
    } else if code == MSG_LBUTTON_UP {
        Some(ExMessageType::LButtonUp)
    } else if code == MSG_LBUTTON_DBLCLK {
        Some(ExMessageType::LButtonDBLck)
    } else if code == MSG_MBUTTON_DOWN {
        Some(ExMessageType::MButtonDown)
    } else if code == MSG_MBUTTON_UP {
        Some(ExMessageType::MButtonUp)
    } else if code == MSG_MBUTTON_DBLCLK {
        Some(ExMessageType::MButtonDBLck)
    } else if code == MSG_RBUTTON_DOWN {
        Some(ExMessageType::RButtonDown)
    } else if code == MSG_RBUTTON_UP {
        Some(ExMessageType::RButtonUp)
    } else if code == MSG_RBUTTON_DBLCLK {
        Some(ExMessageType::RButtonDBLck)
    } else {
        None
    }
}

impl ExMessage {
    /// Classifies one raw record into its kind and decoded payload.
    ///
    /// The payload is decoded strictly by the kind that the identifier
    /// names.  An identifier outside the closed set yields
    /// [`InputError::UnrecognizedEventKind`] and nothing is decoded.
    pub fn classify(raw: &RawEvent) -> (res: Result<ExMessage, InputError>)
        ensures
            kind_of(raw.message) is Some ==> res == Ok::<ExMessage, InputError>(
                classified(*raw),
            ),
            kind_of(raw.message) is None ==> res == Err::<ExMessage, InputError>(
                InputError::UnrecognizedEventKind(raw.message),
            ),
    {
        let kind = match_kind(raw.message);
        match kind {
            None => Err(InputError::UnrecognizedEventKind(raw.message)),
            Some(ty) => {
                let fam = ty.family();
                let msg = match fam {
                    MessageFilter::Mouse => Message::Mouse {
                        ctrl: raw.ctrl,
                        shift: raw.shift,
                        lbutton: raw.lbutton,
                        mbutton: raw.mbutton,
                        rbutton: raw.rbutton,
                        x: raw.x,
                        y: raw.y,
                        wheel: raw.wheel,
                    },
                    MessageFilter::KeyBoard => Message::KeyBoard {
                        vkcode: KeyCode::from_raw(raw.vkcode),
                        scancode: raw.scancode,
                        extended: raw.extended,
                        prevdown: raw.prevdown,
                    },
                    MessageFilter::Char => Message::Char(raw.ch),
                    MessageFilter::Window => Message::Window {
                        wparam: raw.wparam,
                        lparam: raw.lparam,
                    },
                    MessageFilter::All => Message::Window {
                        wparam: raw.wparam,
                        lparam: raw.lparam,
                    },
                };
                Ok(ExMessage { ty, msg })
            },
        }
    }
}

/// The family filters are mutually exclusive: no record is surfaced by two
/// distinct filters other than `All`.
pub proof fn lemma_filter_exclusivity(code: u32, f1: MessageFilter, f2: MessageFilter)
    requires
        f1 != f2,
        f1 != MessageFilter::All,
        f2 != MessageFilter::All,
    ensures
        !(admits_code(f1, code) && admits_code(f2, code)),
{
}

/// The `All` filter surfaces every record.
pub proof fn lemma_all_admits(code: u32)
    ensures
        admits_code(MessageFilter::All, code),
{
}

/// A kind decodes into the variant family it belongs to, and no other:
/// mouse kinds give `Mouse` payloads, key kinds `KeyBoard`, and so on.
pub proof fn lemma_kind_determines_variant(k: ExMessageType, r: RawEvent)
    ensures
        family_of(k) == MessageFilter::Mouse <==> decode(k, r) is Mouse,
        family_of(k) == MessageFilter::KeyBoard <==> decode(k, r) is KeyBoard,
        family_of(k) == MessageFilter::Char <==> decode(k, r) is Char,
        family_of(k) == MessageFilter::Window <==> decode(k, r) is Window,
{
}

} // verus!
