//! The staleness comparator: decides, from two files' last-modification
//! times, whether the first is strictly newer than the second, and from that
//! whether a conditional copy should go ahead.

use vstd::prelude::*;

verus! {

/// A file's last-modification instant: seconds and nanoseconds since an
/// epoch, as the host reports them.
#[derive(Clone, Copy, PartialEq, Eq, Structural, Debug)]
pub struct Mtime {
    pub secs: u64,
    pub nanos: u32,
}

/// `a` is strictly later than `b`.
pub open spec fn newer(a: Mtime, b: Mtime) -> bool {
    a.secs > b.secs || (a.secs == b.secs && a.nanos > b.nanos)
}

/// Why two files could not be compared: one side's metadata (and so its
/// modification time) could not be read, commonly because the file does not
/// exist. The target is read first, so a missing target is reported even
/// when the base is missing too.
#[derive(Clone, Copy, PartialEq, Eq, Structural, Debug)]
pub enum StaleError {
    TargetUnreadable,
    BaseUnreadable,
}

/// Whether `target` was modified strictly later than `base`. A side whose
/// modification time could not be obtained is `None`, and makes the whole
/// comparison fail; equal times are not "newer".
pub fn is_newer(target: Option<Mtime>, base: Option<Mtime>) -> (r: Result<bool, StaleError>)
    ensures
        target is None ==> r == Result::<bool, StaleError>::Err(StaleError::TargetUnreadable),
        target is Some && base is None ==> r == Result::<bool, StaleError>::Err(
            StaleError::BaseUnreadable,
        ),
        target matches Some(t) ==> base matches Some(b) ==> r == Result::<bool, StaleError>::Ok(
            newer(t, b),
        ),
{
    match target {
        None => Err(StaleError::TargetUnreadable),
        Some(t) => match base {
            None => Err(StaleError::BaseUnreadable),
            Some(b) => Ok(t.secs > b.secs || (t.secs == b.secs && t.nanos > b.nanos)),
        },
    }
}

/// The copier's decision for one source/destination pair: copy when the
/// source is strictly newer, and also whenever the comparison itself fails
/// (not comparable means copy).
pub open spec fn spec_should_copy(source: Option<Mtime>, dest: Option<Mtime>) -> bool {
    match (source, dest) {
        (Some(s), Some(d)) => newer(s, d),
        _ => true,
    }
}

/// Executable form of the copy decision: `is_newer`, with a failed
/// comparison read as "copy".
pub fn should_copy(source: Option<Mtime>, dest: Option<Mtime>) -> (r: bool)
    ensures
        r == spec_should_copy(source, dest),
{
    match is_newer(source, dest) {
        Ok(b) => b,
        Err(_) => true,
    }
}

/// Equal modification times never count as newer, in either direction.
pub proof fn lemma_equal_times_not_newer(a: Mtime, b: Mtime)
    requires
        a == b,
    ensures
        !newer(a, b),
        !newer(b, a),
{
}

/// Once a destination is at least as new as its source, the staleness
/// policy decides against copying: re-copying an unchanged source to an
/// up-to-date destination performs no write.
pub proof fn lemma_copy_skipped_when_dest_current(source: Mtime, dest: Mtime)
    requires
        !newer(source, dest),
    ensures
        !spec_should_copy(Some(source), Some(dest)),
{
}

} // verus!
