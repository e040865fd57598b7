//! Recognizing a W3C `traceparent` header and extracting its trace ID.

use vstd::prelude::*;

use super::hex::{
    all_hex_digits, all_hex_text, all_zero, decode_hex, decode_lower_hex, is_all_zero,
    is_lower_hex_of_width,
};
use super::{IdentityFault, TaskIdentityError};
use crate::text::{find_separators, sep_positions, utf8_len, utf8_len_is};

verus! {

/// Field `k` of `s` split at the separator positions `p`.
pub open spec fn field_between(s: Seq<char>, p: Seq<int>, k: int) -> Seq<char> {
    let start = if k == 0 {
        0
    } else {
        p[k - 1] + 1
    };
    let end = if k == p.len() {
        s.len() as int
    } else {
        p[k]
    };
    s.subrange(start, end)
}

/// The trace-hex field of `raw` when `raw` is a well-formed W3C traceparent
/// (`version-trace-parent-flags`), `None` when `raw` does not have that
/// shape, and the fault when it has the shape but is malformed.
///
/// Fewer than four `-`-separated fields, or a version, trace or parent
/// field of the wrong byte width, is not a traceparent at all; more than
/// four fields, bad flags, non-hex fields, or a zero or non-canonical
/// parent ID is a malformed one.
pub open spec fn traceparent_trace(raw: Seq<char>) -> Result<Option<Seq<char>>, IdentityFault> {
    let p = sep_positions(raw, '-');
    if p.len() < 3 {
        Ok(None)
    } else if p.len() > 3 {
        Err(IdentityFault::TraceparentTooManyFields)
    } else {
        let version = field_between(raw, p, 0);
        let trace = field_between(raw, p, 1);
        let parent = field_between(raw, p, 2);
        let flags = field_between(raw, p, 3);
        if utf8_len(version) != 2 || utf8_len(trace) != 32 || utf8_len(parent) != 16 {
            Ok(None)
        } else if utf8_len(flags) != 2 {
            Err(IdentityFault::TraceparentFlags)
        } else if !(all_hex_digits(version) && all_hex_digits(parent) && all_hex_digits(flags)) {
            Err(IdentityFault::TraceparentNotHex)
        } else if !is_lower_hex_of_width(parent, 8) {
            Err(IdentityFault::TraceparentParentWidth)
        } else if all_zero(decode_lower_hex(parent)) {
            Err(IdentityFault::TraceparentParentZero)
        } else {
            Ok(Some(trace))
        }
    }
}

/// Return the trace hex portion when `raw` is a valid W3C traceparent.
pub fn trace_hex(raw: &str) -> (r: Result<Option<&str>, TaskIdentityError>)
    ensures
        (match traceparent_trace(raw@) {
            Ok(None) => r matches Ok(None),
            Ok(Some(t)) => r matches Ok(Some(x)) && x@ == t,
            Err(f) => r matches Err(e) && e@ == (raw@, f),
        }),
{
    let dashes = find_separators(raw, '-', 4);
    if dashes.len() < 3 {
        return Ok(None);
    }
    if dashes.len() > 3 {
        return Err(TaskIdentityError::invalid(raw, IdentityFault::TraceparentTooManyFields));
    }
    let ghost p = sep_positions(raw@, '-');
    proof {
        crate::text::lemma_sep_positions_facts(raw@, '-');
        assert(p[0] < p[1] && p[1] < p[2]);
    }
    let n = raw.unicode_len();
    let version = raw.substring_char(0, dashes[0]);
    let trace_id = raw.substring_char(dashes[0] + 1, dashes[1]);
    let parent_id = raw.substring_char(dashes[1] + 1, dashes[2]);
    let flags = raw.substring_char(dashes[2] + 1, n);
    assert(version@ == field_between(raw@, p, 0));
    assert(trace_id@ == field_between(raw@, p, 1));
    assert(parent_id@ == field_between(raw@, p, 2));
    assert(flags@ == field_between(raw@, p, 3));
    if !utf8_len_is(version, 2) || !utf8_len_is(trace_id, 32) || !utf8_len_is(parent_id, 16) {
        return Ok(None);
    }
    match validate_hex_fields(raw, version, parent_id, flags) {
        Err(e) => return Err(e),
        Ok(()) => {},
    }
    match validate_parent_id(raw, parent_id) {
        Err(e) => Err(e),
        Ok(()) => Ok(Some(trace_id)),
    }
}

/// Flags two bytes wide, then version, parent and flags all hex digits.
fn validate_hex_fields(raw: &str, version: &str, parent_id: &str, flags: &str) -> (r: Result<(), TaskIdentityError>)
    ensures
        utf8_len(flags@) != 2 ==> (r matches Err(e) && e@ == (raw@, IdentityFault::TraceparentFlags)),
        utf8_len(flags@) == 2 && !(all_hex_digits(version@) && all_hex_digits(parent_id@)
            && all_hex_digits(flags@)) ==> (r matches Err(e) && e@ == (
            raw@,
            IdentityFault::TraceparentNotHex,
        )),
        utf8_len(flags@) == 2 && all_hex_digits(version@) && all_hex_digits(parent_id@)
            && all_hex_digits(flags@) ==> r is Ok,
{
    if !utf8_len_is(flags, 2) {
        return Err(TaskIdentityError::invalid(raw, IdentityFault::TraceparentFlags));
    }
    if !(all_hex_text(version) && all_hex_text(parent_id) && all_hex_text(flags)) {
        return Err(TaskIdentityError::invalid(raw, IdentityFault::TraceparentNotHex));
    }
    Ok(())
}

/// The parent ID is 16 lowercase hex digits and not all zero.
fn validate_parent_id(raw: &str, parent_id: &str) -> (r: Result<(), TaskIdentityError>)
    ensures
        !is_lower_hex_of_width(parent_id@, 8) ==> (r matches Err(e) && e@ == (
            raw@,
            IdentityFault::TraceparentParentWidth,
        )),
        is_lower_hex_of_width(parent_id@, 8) && all_zero(decode_lower_hex(parent_id@)) ==> (
        r matches Err(e) && e@ == (raw@, IdentityFault::TraceparentParentZero)),
        is_lower_hex_of_width(parent_id@, 8) && !all_zero(decode_lower_hex(parent_id@)) ==> r is Ok,
{
    match decode_hex(parent_id, 8) {
        None => Err(TaskIdentityError::invalid(raw, IdentityFault::TraceparentParentWidth)),
        Some(parent_bytes) => {
            if is_all_zero(&parent_bytes) {
                Err(TaskIdentityError::invalid(raw, IdentityFault::TraceparentParentZero))
            } else {
                Ok(())
            }
        },
    }
}

} // verus!
