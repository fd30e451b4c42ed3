use vstd::prelude::*;

use crate::platform::Platform;
use crate::text::contains_seq;
use crate::text::lemma_concat_contains_tail;
use crate::text::message_with_detail;

verus! {

/// Compositor window attribute that excludes a window from capture and peek
/// surfaces; the numeric value the native attribute-setting call takes.
pub const EXCLUDED_FROM_PEEK_ATTRIBUTE: u32 = 12;

/// Compositor window attribute that cloaks a window from capture surfaces;
/// unsupported on some OS versions, so writing it is best-effort only.
pub const CLOAK_ATTRIBUTE: u32 = 13;

/// One write of a compositor window attribute. A `load_bearing` write must
/// propagate its failure to the caller; a best-effort write may fail silently.
#[derive(Clone, Copy, PartialEq, Eq, Structural, Debug)]
pub struct AttributeWrite {
    pub attribute: u32,
    pub value: i32,
    pub load_bearing: bool,
}

/// The value written to both capture attributes: set for protection on,
/// cleared for protection off.
pub open spec fn capture_value(enabled: bool) -> i32 {
    if enabled {
        1
    } else {
        0
    }
}

/// The compositor attribute writes that bring a window to the requested
/// protection state, in the order they must be attempted: the load-bearing
/// exclusion first, the best-effort cloak second, both to the same value.
pub open spec fn capture_writes(enabled: bool) -> Seq<AttributeWrite> {
    let value: i32 = capture_value(enabled);
    seq![
        AttributeWrite { attribute: EXCLUDED_FROM_PEEK_ATTRIBUTE, value, load_bearing: true },
        AttributeWrite { attribute: CLOAK_ATTRIBUTE, value, load_bearing: false },
    ]
}

/// Plans the compositor attribute writes for a capture-protection request.
pub fn capture_attribute_writes(enabled: bool) -> (writes: Vec<AttributeWrite>)
    ensures
        writes@ == capture_writes(enabled),
{
    let value: i32 = if enabled { 1 } else { 0 };
    let mut writes: Vec<AttributeWrite> = Vec::new();
    writes.push(AttributeWrite { attribute: EXCLUDED_FROM_PEEK_ATTRIBUTE, value, load_bearing: true });
    writes.push(AttributeWrite { attribute: CLOAK_ATTRIBUTE, value, load_bearing: false });
    proof {
        assert(writes@ =~= capture_writes(enabled));
    }
    writes
}

/// How the window-server lets a window be shared with capture clients:
/// `NoSharing` blocks capture entirely, `ReadOnly` lets the contents be
/// captured but not driven remotely, `ReadWrite` allows both.
#[derive(Clone, Copy, PartialEq, Eq, Structural, Debug)]
pub enum SharingType {
    NoSharing,
    ReadOnly,
    ReadWrite,
}

/// The sharing type that realizes a capture-protection request. Disabling
/// protection deliberately restores `ReadOnly`, never `ReadWrite`.
pub open spec fn sharing_type_spec(enabled: bool) -> SharingType {
    if enabled {
        SharingType::NoSharing
    } else {
        SharingType::ReadOnly
    }
}

/// Picks the window-server sharing type for a capture-protection request.
pub fn sharing_type_for(enabled: bool) -> (sharing: SharingType)
    ensures
        sharing == sharing_type_spec(enabled),
{
    if enabled {
        SharingType::NoSharing
    } else {
        SharingType::ReadOnly
    }
}

/// The numeric value of a sharing type as the native window-server call
/// takes it.
pub open spec fn sharing_type_raw_spec(sharing: SharingType) -> u64 {
    match sharing {
        SharingType::NoSharing => 0,
        SharingType::ReadOnly => 1,
        SharingType::ReadWrite => 2,
    }
}

/// Converts a sharing type to the numeric value the native call takes.
pub fn sharing_type_raw(sharing: SharingType) -> (raw: u64)
    ensures
        raw == sharing_type_raw_spec(sharing),
{
    match sharing {
        SharingType::NoSharing => 0,
        SharingType::ReadOnly => 1,
        SharingType::ReadWrite => 2,
    }
}

/// The fixed text that precedes the native error in a load-bearing write
/// failure, one wording per direction of the request.
pub open spec fn capture_failure_prefix(enabled: bool) -> Seq<char> {
    if enabled {
        "Failed to exclude from capture: "@
    } else {
        "Failed to include in capture: "@
    }
}

/// Builds the failure message for the load-bearing write, embedding the
/// native error text verbatim.
pub fn capture_write_failure(enabled: bool, os_error: &str) -> (msg: String)
    ensures
        msg@ == capture_failure_prefix(enabled) + os_error@,
{
    if enabled {
        message_with_detail("Failed to exclude from capture: ", os_error)
    } else {
        message_with_detail("Failed to include in capture: ", os_error)
    }
}

/// A load-bearing write failure message always contains the native error
/// text it was built from.
pub proof fn lemma_capture_failure_contains_os_error(enabled: bool, os_error: Seq<char>)
    ensures
        contains_seq(capture_failure_prefix(enabled) + os_error, os_error),
{
    lemma_concat_contains_tail(capture_failure_prefix(enabled), os_error);
}

/// The compositor-visible capture attributes of one window: the model that
/// the contracts, the idempotence argument and the tests observe.
#[derive(Clone, Copy, PartialEq, Eq, Structural, Debug)]
pub struct DwmCaptureState {
    pub excluded_from_peek: i32,
    pub cloak: i32,
}

/// The model window after one attribute write. A write to an attribute the
/// model does not track leaves it unchanged.
pub open spec fn apply_attribute_write(state: DwmCaptureState, write: AttributeWrite) -> DwmCaptureState {
    if write.attribute == EXCLUDED_FROM_PEEK_ATTRIBUTE {
        DwmCaptureState { excluded_from_peek: write.value, ..state }
    } else if write.attribute == CLOAK_ATTRIBUTE {
        DwmCaptureState { cloak: write.value, ..state }
    } else {
        state
    }
}

/// The model window after a sequence of attribute writes, applied in order.
pub open spec fn apply_attribute_writes(state: DwmCaptureState, writes: Seq<AttributeWrite>) -> DwmCaptureState
    decreases writes.len(),
{
    if writes.len() == 0 {
        state
    } else {
        apply_attribute_writes(
            apply_attribute_write(state, writes[0]),
            writes.subrange(1, writes.len() as int),
        )
    }
}

/// The net effect of the full capture write sequence: both attributes hold
/// the requested value, whatever the window held before.
pub proof fn lemma_capture_writes_effect(state: DwmCaptureState, enabled: bool)
    ensures
        apply_attribute_writes(state, capture_writes(enabled)) == (DwmCaptureState {
            excluded_from_peek: capture_value(enabled),
            cloak: capture_value(enabled),
        }),
{
    lemma_apply_two_writes(state, capture_writes(enabled));
}

/// Applying a two-write sequence is applying its writes one after the other.
pub proof fn lemma_apply_two_writes(state: DwmCaptureState, writes: Seq<AttributeWrite>)
    requires
        writes.len() == 2,
    ensures
        apply_attribute_writes(state, writes)
            == apply_attribute_write(apply_attribute_write(state, writes[0]), writes[1]),
{
    let after_first = apply_attribute_write(state, writes[0]);
    let rest = writes.subrange(1, 2);
    assert(rest.len() == 1);
    assert(rest[0] == writes[1]);
    assert(rest.subrange(1, 1).len() == 0);
    assert(apply_attribute_writes(state, writes) == apply_attribute_writes(after_first, rest));
    assert(apply_attribute_writes(after_first, rest)
        == apply_attribute_writes(apply_attribute_write(after_first, rest[0]), rest.subrange(1, 1)));
}

/// Performs one attribute write on the model window.
pub fn dwm_write(state: &mut DwmCaptureState, write: &AttributeWrite)
    ensures
        *final(state) == apply_attribute_write(*old(state), *write),
{
    if write.attribute == EXCLUDED_FROM_PEEK_ATTRIBUTE {
        state.excluded_from_peek = write.value;
    } else if write.attribute == CLOAK_ATTRIBUTE {
        state.cloak = write.value;
    }
}

/// Runs the capture-protection write sequence against a model window, with an
/// injected outcome for each native write (`None` is success, `Some(text)` a
/// failure carrying that OS error text). The load-bearing exclusion write is
/// attempted first; its failure ends the sequence with the OS text embedded
/// in the returned message, so the best-effort cloak write is never attempted
/// in its place. A cloak failure is swallowed: the result never depends on it.
pub fn apply_capture_protection(
    state: &mut DwmCaptureState,
    enabled: bool,
    exclusion_outcome: Option<&str>,
    cloak_outcome: Option<&str>,
) -> (result: Result<(), String>)
    ensures
        result is Ok <==> exclusion_outcome is None,
        (exclusion_outcome matches Some(os_error) ==> (result matches Err(msg)
            && msg@ == capture_failure_prefix(enabled) + os_error@
            && *final(state) == *old(state))),
        exclusion_outcome is None ==> final(state).excluded_from_peek == capture_value(enabled),
        exclusion_outcome is None && cloak_outcome is None ==> final(state).cloak == capture_value(
            enabled,
        ),
        exclusion_outcome is None && cloak_outcome is Some ==> final(state).cloak == old(
            state,
        ).cloak,
        exclusion_outcome is None && cloak_outcome is None ==> *final(state)
            == apply_attribute_writes(*old(state), capture_writes(enabled)),
{
    let writes = capture_attribute_writes(enabled);
    match exclusion_outcome {
        Some(os_error) => {
            return Err(capture_write_failure(enabled, os_error));
        },
        None => {
            dwm_write(state, &writes[0]);
        },
    }
    match cloak_outcome {
        Some(_) => {},
        None => {
            dwm_write(state, &writes[1]);
            proof {
                lemma_apply_two_writes(*old(state), capture_writes(enabled));
            }
        },
    }
    Ok(())
}

/// Everything the capture controller can change, across both native backends.
pub struct CaptureObservation {
    pub dwm: DwmCaptureState,
    pub sharing: SharingType,
}

/// The observable protection state after one capture-protection request on
/// the given platform. On the unsupported platform nothing is attempted.
pub open spec fn capture_observation_after(
    platform: Platform,
    state: CaptureObservation,
    enabled: bool,
) -> CaptureObservation {
    match platform {
        Platform::Windows => CaptureObservation {
            dwm: apply_attribute_writes(state.dwm, capture_writes(enabled)),
            ..state
        },
        Platform::MacOs => CaptureObservation { sharing: sharing_type_spec(enabled), ..state },
        Platform::Unsupported => state,
    }
}

/// Applying the same capture-protection request twice reaches exactly the
/// state of applying it once: every write sets an absolute value, none
/// toggles or accumulates.
pub proof fn lemma_capture_idempotent(platform: Platform, state: CaptureObservation, enabled: bool)
    ensures
        capture_observation_after(platform, capture_observation_after(platform, state, enabled), enabled)
            == capture_observation_after(platform, state, enabled),
{
    let once = capture_observation_after(platform, state, enabled);
    match platform {
        Platform::Windows => {
            lemma_capture_writes_effect(state.dwm, enabled);
            lemma_capture_writes_effect(once.dwm, enabled);
        },
        Platform::MacOs => {},
        Platform::Unsupported => {},
    }
}

} // verus!
