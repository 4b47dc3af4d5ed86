use vstd::prelude::*;

verus! {

/// `dwType` of a raw-input record that comes from a mouse.
pub const RIM_TYPEMOUSE: u32 = 0;

/// `usFlags` bit set when a mouse reports absolute rather than relative motion.
pub const MOUSE_MOVE_ABSOLUTE: u16 = 0x0001;

/// Whether a raw-input read succeeded and carries relative mouse motion.
pub open spec fn is_relative_mouse_report(read: u32, dw_type: u32, us_flags: u16) -> bool {
    &&& read != u32::MAX
    &&& read != 0
    &&& dw_type == RIM_TYPEMOUSE
    &&& us_flags & MOUSE_MOVE_ABSOLUTE == 0
}

/// The cursor motion carried by a raw-input read: `read` is what the read
/// returned (`u32::MAX` on error, 0 when nothing was copied), `dw_type` and
/// `us_flags` come from the record, `last_x`/`last_y` are its motion counts.
/// `None` when there is nothing to move: a failed read, a record from another
/// device, absolute motion, or a zero delta.
pub fn relative_motion(read: u32, dw_type: u32, us_flags: u16, last_x: i32, last_y: i32) -> (m:
    Option<(i32, i32)>)
    ensures
        m == (if is_relative_mouse_report(read, dw_type, us_flags) && (last_x != 0 || last_y != 0) {
            Some((last_x, last_y))
        } else {
            None
        }),
{
    if read == u32::MAX || read == 0 {
        return None;
    }
    if dw_type != RIM_TYPEMOUSE || us_flags & MOUSE_MOVE_ABSOLUTE != 0 {
        return None;
    }
    if last_x != 0 || last_y != 0 {
        Some((last_x, last_y))
    } else {
        None
    }
}

/// Law: a read counts as relative mouse motion exactly when it succeeded,
/// the record comes from a mouse, and the absolute-motion bit (bit 0 of the
/// flags) is clear; the other flag bits do not matter.
pub proof fn lemma_motion_filter(read: u32, dw_type: u32, us_flags: u16, last_x: i32, last_y: i32)
    ensures
        read == u32::MAX || read == 0 ==> !is_relative_mouse_report(read, dw_type, us_flags),
        dw_type != 0 ==> !is_relative_mouse_report(read, dw_type, us_flags),
        us_flags % 2 == 1 ==> !is_relative_mouse_report(read, dw_type, us_flags),
        read != u32::MAX && read != 0 && dw_type == 0 && us_flags % 2 == 0
            ==> is_relative_mouse_report(read, dw_type, us_flags),
{
    assert(us_flags % 2 == 1 ==> us_flags & 1u16 != 0) by (bit_vector);
    assert(us_flags % 2 == 0 ==> us_flags & 1u16 == 0) by (bit_vector);
}

} // verus!
