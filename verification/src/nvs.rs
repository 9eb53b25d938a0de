//! How values read back from the flash store are interpreted: defaults for
//! missing entries and the limit on stored string lengths.
use vstd::prelude::*;

use crate::panel::Hsv;

verus! {

/// A read from the flash store failed.
#[derive(Debug, Clone, Copy, PartialEq, Eq, Structural)]
pub struct NvsError;

/// Longest stored string (in bytes, with its terminator) that is read back.
pub const MAX_STR_LEN: usize = 100;

/// The length to read back for a stored string, from what the store reports
/// about it; `None` (the string counts as missing) when the read failed, the
/// entry is missing, empty, or too long for the buffer.
pub fn stored_str_len(read: Result<Option<usize>, NvsError>) -> (len: Option<usize>)
    ensures
        len == match read {
            Ok(Some(v)) => if v == 0 || v >= MAX_STR_LEN { None } else { Some(v) },
            _ => None::<usize>,
        },
{
    let v: usize = match read {
        Ok(Some(v)) => if v >= MAX_STR_LEN { 0 } else { v },
        _ => 0,
    };
    if v == 0 { None } else { Some(v) }
}

/// A stored byte, or `default` when the entry is missing or the read failed.
pub fn stored_u8(read: Result<Option<u8>, NvsError>, default: u8) -> (v: u8)
    ensures
        v == match read {
            Ok(Some(x)) => x,
            _ => default,
        },
{
    match read {
        Ok(Some(x)) => x,
        _ => default,
    }
}

/// The LED colour from its stored components: hue 0, full saturation and
/// full value for missing ones.
pub fn hsv_from_stored(
    hue: Result<Option<u8>, NvsError>,
    sat: Result<Option<u8>, NvsError>,
    val: Result<Option<u8>, NvsError>,
) -> (c: Hsv)
    ensures
        c.hue == match hue {
            Ok(Some(x)) => x,
            _ => 0u8,
        },
        c.sat == match sat {
            Ok(Some(x)) => x,
            _ => 255u8,
        },
        c.val == match val {
            Ok(Some(x)) => x,
            _ => 255u8,
        },
{
    Hsv { hue: stored_u8(hue, 0), sat: stored_u8(sat, 255), val: stored_u8(val, 255) }
}

/// UTC offset in hours used when none is stored (Korea, UTC+9).
pub const DEFAULT_UTC_OFFSET: i32 = 9;

/// The UTC offset from its stored entry: the default when it is missing,
/// 0 when it could not be read.
pub fn utc_offset_from_stored(read: Result<Option<i32>, NvsError>) -> (off: i32)
    ensures
        off == match read {
            Ok(Some(x)) => x,
            Ok(None) => DEFAULT_UTC_OFFSET,
            Err(_) => 0i32,
        },
{
    match read {
        Ok(Some(x)) => x,
        Ok(None) => DEFAULT_UTC_OFFSET,
        Err(_) => 0,
    }
}

/// The UTC offset (hours) to use from a stored one: the stored offset when
/// it is one the menu can set (-12 to 12), the default otherwise.
pub fn utc_offset_setting(stored: i32) -> (off: i8)
    ensures
        off == if -12 <= stored <= 12 { stored } else { DEFAULT_UTC_OFFSET },
{
    if -12 <= stored && stored <= 12 {
        stored as i8
    } else {
        DEFAULT_UTC_OFFSET as i8
    }
}

} // verus!
