//! Reading the application in front from an X server: the active window of the
//! root, then the class of that window.

use vstd::prelude::*;
use vstd::utf8::{encode_utf8, valid_utf8};

verus! {

/// Checks bytes with `std::str::from_utf8` and copies the text out. Bytes that
/// are not UTF-8 give nothing; the text that valid bytes give encodes to exactly
/// those bytes.
#[verifier::external_body]
pub(crate) fn text_of_utf8(bytes: &Vec<u8>) -> (text: Option<String>)
    ensures
        text is Some == valid_utf8(bytes@),
        text matches Some(s) ==> encode_utf8(s@) == bytes@,
{
    match std::str::from_utf8(bytes) {
        Ok(text) => Some(text.to_owned()),
        Err(_) => None,
    }
}

/// A property of a window, as the server sends it.
#[derive(Debug, PartialEq, Eq)]
pub struct Property {
    /// The atom of its type; zero when the window has no such property.
    pub kind: u32,
    /// How many bits one of its items takes.
    pub format: u8,
    /// Its bytes.
    pub value: Vec<u8>,
}

/// The atom of the type `STRING`.
pub const STRING: u32 = 31;

/// Where the first zero byte is, or the length where there is none.
pub open spec fn first_zero(bytes: Seq<u8>) -> int
    decreases bytes.len(),
{
    if bytes.len() == 0 || bytes[0] == 0 {
        0
    } else {
        1 + first_zero(bytes.skip(1))
    }
}

/// The second of two zero-terminated strings: what follows the first zero byte,
/// without a zero byte at the very end.
pub open spec fn second_string(bytes: Seq<u8>) -> Seq<u8> {
    let start = first_zero(bytes) + 1;
    if start >= bytes.len() {
        Seq::empty()
    } else {
        bytes.subrange(
            start,
            if bytes.last() == 0 {
                bytes.len() - 1
            } else {
                bytes.len() as int
            },
        )
    }
}

/// The class in a `WM_CLASS` property, where the property is one.
pub open spec fn class_of(kind: u32, format: u8, value: Seq<u8>) -> Option<Seq<u8>> {
    if kind == STRING && format == 8 {
        Some(second_string(value))
    } else {
        None
    }
}

/// Reads a `WM_CLASS` property with `x11rb::properties::WmClass::from_reply` and
/// takes its `class`. A property of another type or format, or a missing one,
/// has no class; otherwise the class is the second of its two zero-terminated
/// strings.
#[verifier::external_body]
fn wm_class(kind: u32, format: u8, value: &Vec<u8>) -> (class: Option<Vec<u8>>)
    ensures
        match class {
            Some(bytes) => class_of(kind, format, value@) == Some(bytes@),
            None => class_of(kind, format, value@) is None,
        },
{
    let reply = x11rb::protocol::xproto::GetPropertyReply {
        format,
        type_: kind,
        value: value.clone(),
        ..Default::default()
    };
    match x11rb::properties::WmClass::from_reply(reply) {
        Ok(Some(class)) => Some(class.class().to_vec()),
        Ok(None) => None,
        Err(_) => None,
    }
}

/// The number that four bytes write, the least significant first.
pub open spec fn little_word(bytes: Seq<u8>) -> int {
    bytes[0] + 0x100 * bytes[1] + 0x1_0000 * bytes[2] + 0x100_0000 * bytes[3]
}

/// The number that four bytes write, the most significant first.
pub open spec fn big_word(bytes: Seq<u8>) -> int {
    bytes[3] + 0x100 * bytes[2] + 0x1_0000 * bytes[1] + 0x100_0000 * bytes[0]
}

/// Whether `words` are the 32-bit items of `value`, in the byte order of the
/// machine. Bytes at the end that fill no item are left out.
pub open spec fn are_words(words: Seq<u32>, value: Seq<u8>) -> bool {
    &&& words.len() == value.len() / 4
    &&& {
        ||| forall|i: int|
            0 <= i < words.len() ==> #[trigger] words[i] == little_word(
                value.subrange(4 * i, 4 * i + 4),
            )
        ||| forall|i: int|
            0 <= i < words.len() ==> #[trigger] words[i] == big_word(
                value.subrange(4 * i, 4 * i + 4),
            )
    }
}

/// Reads a property of 32-bit items with
/// `x11rb::protocol::xproto::GetPropertyReply::value32`. There are items exactly
/// when the format says so; each is read from its four bytes in the byte order of
/// the machine, which is why the contract names two orders and not one.
#[verifier::external_body]
fn value32(format: u8, value: &Vec<u8>) -> (words: Option<Vec<u32>>)
    ensures
        words is Some == (format == 32),
        words matches Some(words) ==> are_words(words@, value@),
{
    let reply = x11rb::protocol::xproto::GetPropertyReply {
        format,
        value: value.clone(),
        ..Default::default()
    };
    reply.value32().map(|words| words.collect())
}

/// The items of a property, where it could be read and has 32-bit items.
pub fn property_values(property: Option<&Property>) -> (values: Option<Vec<u32>>)
    ensures
        values is Some == (property matches Some(p) && p.format == 32),
        values matches Some(words) ==> are_words(words@, property->0.value@),
{
    match property {
        Some(property) => value32(property.format, &property.value),
        None => None,
    }
}

/// The profile key that the class of a window spells: its text, when it has one.
pub fn app_id_of_class(class: Option<&Vec<u8>>) -> (id: Option<String>)
    ensures
        match id {
            Some(s) => class matches Some(bytes) && encode_utf8(s@) == bytes@ && bytes@.len() > 0
                && valid_utf8(bytes@),
            None => class matches Some(bytes) ==> bytes@.len() == 0 || !valid_utf8(bytes@),
        },
{
    match class {
        None => None,
        Some(bytes) => {
            if bytes.len() == 0 {
                return None;
            }
            text_of_utf8(bytes)
        },
    }
}

/// The profile key of a window, given its `WM_CLASS` property: the class in it,
/// when that is text.
pub fn window_app_id(property: Option<&Property>) -> (id: Option<String>)
    ensures
        match id {
            Some(s) => property matches Some(p) && class_of(p.kind, p.format, p.value@) == Some(
                encode_utf8(s@),
            ) && s@.len() > 0,
            None => property matches Some(p) ==> match class_of(p.kind, p.format, p.value@) {
                Some(bytes) => bytes.len() == 0 || !valid_utf8(bytes),
                None => true,
            },
        },
{
    match property {
        None => None,
        Some(property) => {
            let class = wm_class(property.kind, property.format, &property.value);
            let id = app_id_of_class(class.as_ref());
            proof {
                if id is Some {
                    assert(encode_utf8(Seq::<char>::empty()).len() == 0);
                    assert(id->0@.len() == 0 ==> id->0@ == Seq::<char>::empty());
                }
            }
            id
        },
    }
}

/// The window that is active: the first one listed, unless it is none.
pub fn active_window(listed: Option<&Vec<u32>>) -> (window: Option<u32>)
    ensures
        window == match listed {
            Some(windows) => if windows@.len() > 0 && windows@[0] != 0 {
                Some(windows@[0])
            } else {
                None
            },
            None => None,
        },
{
    match listed {
        Some(windows) => if windows.len() > 0 && windows[0] != 0 {
            Some(windows[0])
        } else {
            None
        },
        None => None,
    }
}

/// What the server reports.
#[derive(Clone, Copy, Debug, PartialEq, Eq, Structural)]
pub enum Notice {
    /// A property of a window changed.
    Property {
        /// The window.
        window: u32,
        /// The property.
        atom: u32,
    },
    /// Anything else.
    Other,
}

/// Whether the queued reports say that another window may be active.
pub fn active_window_changed(notices: &Vec<Notice>, root: u32, net_active_window: u32) -> (changed:
    bool)
    ensures
        changed == notices@.contains(Notice::Property { window: root, atom: net_active_window }),
{
    let mut i: usize = 0;
    while i < notices.len()
        invariant
            i <= notices@.len(),
            forall|k: int|
                0 <= k < i ==> notices@[k] != (Notice::Property {
                    window: root,
                    atom: net_active_window,
                }),
        decreases notices@.len() - i,
    {
        if notices[i] == (Notice::Property { window: root, atom: net_active_window }) {
            assert(notices@[i as int] == (Notice::Property {
                window: root,
                atom: net_active_window,
            }));
            return true;
        }
        i = i + 1;
    }
    false
}

/// What waiting for the server or for a request to stop came to.
#[derive(Clone, Copy, Debug, PartialEq, Eq, Structural)]
pub enum PollResult {
    /// The observer is to stop.
    StopRequested,
    /// The server has something to say.
    SourceReady,
    /// Neither, in time.
    DeadlineReached,
    /// Waiting failed.
    Error,
}

/// What an observer is doing.
#[derive(Clone, Copy, Debug, PartialEq, Eq, Structural)]
pub enum ObserverPhase {
    /// Subscribing to the server.
    Subscribing,
    /// Waiting for the server.
    Waiting,
    /// Reading what the server queued.
    Draining,
    /// Pausing before it connects again.
    Pausing,
    /// Connecting again.
    Reconnecting,
    /// Over.
    Stopped,
}

/// What an observer hears.
#[derive(Clone, Copy, Debug, PartialEq, Eq, Structural)]
pub enum ObserverInput {
    /// Whether subscribing worked.
    Subscribed(bool),
    /// What waiting came to.
    Polled(PollResult),
    /// The queue is read: whether another window may be active.
    Drained(bool),
    /// The connection was lost while the queue was read.
    Lost,
    /// The pause is over: whether the observer is to stop.
    Paused(bool),
    /// The attempt to connect is over.
    Reconnected,
}

/// What an observer tells the publication.
#[derive(Clone, Copy, Debug, PartialEq, Eq, Structural)]
pub enum Tell {
    /// Nothing.
    Nothing,
    /// The application in front, read now.
    Snapshot,
    /// That it cannot say which application is in front.
    Unknown,
}

/// What an observer does next: its phase and what it tells. Subscribing comes
/// before the first snapshot, so that no change falls between them; a lost
/// connection is told and tried again after a pause.
pub open spec fn observer_step(phase: ObserverPhase, input: ObserverInput) -> (
    ObserverPhase,
    Tell,
) {
    match (phase, input) {
        (ObserverPhase::Subscribing, ObserverInput::Subscribed(true)) => (
            ObserverPhase::Waiting,
            Tell::Snapshot,
        ),
        (ObserverPhase::Subscribing, ObserverInput::Subscribed(false)) => (
            ObserverPhase::Pausing,
            Tell::Unknown,
        ),
        (ObserverPhase::Waiting, ObserverInput::Polled(PollResult::StopRequested)) => (
            ObserverPhase::Stopped,
            Tell::Nothing,
        ),
        (ObserverPhase::Waiting, ObserverInput::Polled(PollResult::SourceReady)) => (
            ObserverPhase::Draining,
            Tell::Nothing,
        ),
        (ObserverPhase::Waiting, ObserverInput::Polled(PollResult::Error)) => (
            ObserverPhase::Pausing,
            Tell::Unknown,
        ),
        (ObserverPhase::Draining, ObserverInput::Drained(true)) => (
            ObserverPhase::Waiting,
            Tell::Snapshot,
        ),
        (ObserverPhase::Draining, ObserverInput::Drained(false)) => (
            ObserverPhase::Waiting,
            Tell::Nothing,
        ),
        (ObserverPhase::Draining, ObserverInput::Lost) => (ObserverPhase::Pausing, Tell::Unknown),
        (ObserverPhase::Pausing, ObserverInput::Paused(true)) => (
            ObserverPhase::Stopped,
            Tell::Nothing,
        ),
        (ObserverPhase::Pausing, ObserverInput::Paused(false)) => (
            ObserverPhase::Reconnecting,
            Tell::Nothing,
        ),
        (ObserverPhase::Reconnecting, ObserverInput::Reconnected) => (
            ObserverPhase::Subscribing,
            Tell::Nothing,
        ),
        _ => (phase, Tell::Nothing),
    }
}

/// What an observer does next.
pub fn observe(phase: ObserverPhase, input: ObserverInput) -> (next: (ObserverPhase, Tell))
    ensures
        next == observer_step(phase, input),
{
    match (phase, input) {
        (ObserverPhase::Subscribing, ObserverInput::Subscribed(subscribed)) => if subscribed {
            (ObserverPhase::Waiting, Tell::Snapshot)
        } else {
            (ObserverPhase::Pausing, Tell::Unknown)
        },
        (ObserverPhase::Waiting, ObserverInput::Polled(polled)) => match polled {
            PollResult::StopRequested => (ObserverPhase::Stopped, Tell::Nothing),
            PollResult::SourceReady => (ObserverPhase::Draining, Tell::Nothing),
            PollResult::DeadlineReached => (ObserverPhase::Waiting, Tell::Nothing),
            PollResult::Error => (ObserverPhase::Pausing, Tell::Unknown),
        },
        (ObserverPhase::Draining, ObserverInput::Drained(changed)) => if changed {
            (ObserverPhase::Waiting, Tell::Snapshot)
        } else {
            (ObserverPhase::Waiting, Tell::Nothing)
        },
        (ObserverPhase::Draining, ObserverInput::Lost) => (ObserverPhase::Pausing, Tell::Unknown),
        (ObserverPhase::Pausing, ObserverInput::Paused(stop)) => if stop {
            (ObserverPhase::Stopped, Tell::Nothing)
        } else {
            (ObserverPhase::Reconnecting, Tell::Nothing)
        },
        (ObserverPhase::Reconnecting, ObserverInput::Reconnected) => (
            ObserverPhase::Subscribing,
            Tell::Nothing,
        ),
        _ => (phase, Tell::Nothing),
    }
}

} // verus!
