//! Picking the compositor globals the virtual keyboard binds.

use vstd::prelude::*;

verus! {

/// The interface name of a seat.
pub const SEAT_INTERFACE: &'static str = "wl_seat";

/// The interface name of the virtual-keyboard manager.
pub const VIRTUAL_KEYBOARD_MANAGER_INTERFACE: &'static str = "zwp_virtual_keyboard_manager_v1";

/// The globals the virtual keyboard cares about.
#[derive(Clone, Copy, PartialEq, Eq, Debug, Structural)]
pub enum GlobalKind {
    Seat,
    VirtualKeyboardManager,
    Other,
}

/// A global advertised by the compositor's registry.
pub struct GlobalEntry {
    pub name: u32,
    pub interface: String,
    pub version: u32,
}

/// Which kind of global an interface name denotes.
pub open spec fn spec_classify_global(interface: Seq<char>) -> GlobalKind {
    if interface == SEAT_INTERFACE@ {
        GlobalKind::Seat
    } else if interface == VIRTUAL_KEYBOARD_MANAGER_INTERFACE@ {
        GlobalKind::VirtualKeyboardManager
    } else {
        GlobalKind::Other
    }
}

/// Calls std's `PartialEq::eq` on two string slices, which std documents as
/// comparing their contents.
#[verifier::external_body]
fn str_eq(a: &str, b: &str) -> (r: bool)
    ensures
        r == (a@ == b@),
{
    a == b
}

/// Which kind of global an interface name denotes.
pub fn classify_global(interface: &str) -> (kind: GlobalKind)
    ensures
        kind == spec_classify_global(interface@),
{
    if str_eq(interface, SEAT_INTERFACE) {
        GlobalKind::Seat
    } else if str_eq(interface, VIRTUAL_KEYBOARD_MANAGER_INTERFACE) {
        GlobalKind::VirtualKeyboardManager
    } else {
        GlobalKind::Other
    }
}

/// The position of the first advertised global of the given kind.
pub fn find_global(globals: &Vec<GlobalEntry>, kind: GlobalKind) -> (found: Option<usize>)
    ensures
        match found {
            Some(i) => i < globals@.len() && spec_classify_global(globals@[i as int].interface@) == kind
                && forall|j: int| 0 <= j < i ==> spec_classify_global(#[trigger] globals@[j].interface@) != kind,
            None => forall|j: int| 0 <= j < globals@.len() ==> spec_classify_global(#[trigger] globals@[j].interface@) != kind,
        },
{
    let mut i: usize = 0;
    while i < globals.len()
        invariant
            0 <= i <= globals@.len(),
            forall|j: int| 0 <= j < i ==> spec_classify_global(#[trigger] globals@[j].interface@) != kind,
        decreases globals@.len() - i,
    {
        if classify_global(globals[i].interface.as_str()) == kind {
            return Some(i);
        }
        i = i + 1;
    }
    None
}

} // verus!
