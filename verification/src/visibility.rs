use vstd::prelude::*;

use crate::platform::Platform;

verus! {

/// Extended-style bit that marks a tool window, which gets no taskbar entry;
/// the numeric value of the native style bit.
pub const TOOL_WINDOW_STYLE: usize = 0x80;

/// Extended-style bit that forces a taskbar entry for the window.
pub const APP_WINDOW_STYLE: usize = 0x40000;

/// `bit` is wholly set in `mask`.
pub open spec fn bit_set(mask: usize, bit: usize) -> bool {
    mask & bit == bit
}

/// The extended style mask after a taskbar-visibility request: the app-window
/// and tool-window bits are rewritten together, to mutually exclusive
/// settings, in one read-modify-write; every other bit is kept as read.
pub open spec fn taskbar_style_spec(mask: usize, visible: bool) -> usize {
    if visible {
        (mask | APP_WINDOW_STYLE) & !TOOL_WINDOW_STYLE
    } else {
        (mask & !APP_WINDOW_STYLE) | TOOL_WINDOW_STYLE
    }
}

/// Computes the new extended style mask for a taskbar-visibility request from
/// the mask just read off the window. The native facility cannot report a
/// failed read or write-back, so the caller treats the write as succeeding
/// once invoked; only this computation carries the contract.
pub fn taskbar_ex_style(mask: usize, visible: bool) -> (updated: usize)
    ensures
        updated == taskbar_style_spec(mask, visible),
{
    if visible {
        (mask | APP_WINDOW_STYLE) & !TOOL_WINDOW_STYLE
    } else {
        (mask & !APP_WINDOW_STYLE) | TOOL_WINDOW_STYLE
    }
}

/// The two taskbar bits always change together: after any request the
/// app-window bit reflects the requested visibility, the tool-window bit its
/// negation, and no other bit of the mask is touched.
pub proof fn lemma_taskbar_style_bits(mask: usize, visible: bool)
    ensures
        bit_set(taskbar_style_spec(mask, visible), APP_WINDOW_STYLE) == visible,
        bit_set(taskbar_style_spec(mask, visible), TOOL_WINDOW_STYLE) == !visible,
        taskbar_style_spec(mask, visible) & !(APP_WINDOW_STYLE | TOOL_WINDOW_STYLE)
            == mask & !(APP_WINDOW_STYLE | TOOL_WINDOW_STYLE),
{
    assert(bit_set(taskbar_style_spec(mask, visible), APP_WINDOW_STYLE) == visible)
        by (bit_vector);
    assert(bit_set(taskbar_style_spec(mask, visible), TOOL_WINDOW_STYLE) == !visible)
        by (bit_vector);
    assert(taskbar_style_spec(mask, visible) & !(APP_WINDOW_STYLE | TOOL_WINDOW_STYLE)
        == mask & !(APP_WINDOW_STYLE | TOOL_WINDOW_STYLE)) by (bit_vector);
}

/// Applying the same taskbar-visibility request twice yields exactly the mask
/// of applying it once: the bits are set absolutely, not toggled.
pub proof fn lemma_taskbar_style_idempotent(mask: usize, visible: bool)
    ensures
        taskbar_style_spec(taskbar_style_spec(mask, visible), visible)
            == taskbar_style_spec(mask, visible),
{
    assert(taskbar_style_spec(taskbar_style_spec(mask, visible), visible)
        == taskbar_style_spec(mask, visible)) by (bit_vector);
}

/// Application activation policy: `Regular` is a full, dock-visible
/// application; `Accessory` a dock-hidden background one. The policy is
/// process-global, so hiding one window's dock entry hides the whole
/// application's — a platform constraint, not a defect.
#[derive(Clone, Copy, PartialEq, Eq, Structural, Debug)]
pub enum ActivationPolicy {
    Regular,
    Accessory,
}

/// The activation policy that realizes a dock-visibility request.
pub open spec fn activation_policy_spec(visible: bool) -> ActivationPolicy {
    if visible {
        ActivationPolicy::Regular
    } else {
        ActivationPolicy::Accessory
    }
}

/// Picks the application activation policy for a dock-visibility request.
pub fn activation_policy_for(visible: bool) -> (policy: ActivationPolicy)
    ensures
        policy == activation_policy_spec(visible),
{
    if visible {
        ActivationPolicy::Regular
    } else {
        ActivationPolicy::Accessory
    }
}

/// The numeric value of an activation policy as the native call takes it.
pub open spec fn activation_policy_raw_spec(policy: ActivationPolicy) -> i64 {
    match policy {
        ActivationPolicy::Regular => 0,
        ActivationPolicy::Accessory => 1,
    }
}

/// Converts an activation policy to the numeric value the native call takes.
pub fn activation_policy_raw(policy: ActivationPolicy) -> (raw: i64)
    ensures
        raw == activation_policy_raw_spec(policy),
{
    match policy {
        ActivationPolicy::Regular => 0,
        ActivationPolicy::Accessory => 1,
    }
}

/// Everything the visibility controller can change, across both native
/// backends: one window's extended style mask, and the application-wide
/// activation policy.
pub struct VisibilityObservation {
    pub ex_style: usize,
    pub policy: ActivationPolicy,
}

/// The observable visibility state after one taskbar-visibility request on
/// the given platform. On the unsupported platform nothing is attempted.
pub open spec fn visibility_observation_after(
    platform: Platform,
    state: VisibilityObservation,
    visible: bool,
) -> VisibilityObservation {
    match platform {
        Platform::Windows => VisibilityObservation {
            ex_style: taskbar_style_spec(state.ex_style, visible),
            ..state
        },
        Platform::MacOs => VisibilityObservation {
            policy: activation_policy_spec(visible),
            ..state
        },
        Platform::Unsupported => state,
    }
}

/// Applying the same taskbar-visibility request twice reaches exactly the
/// state of applying it once, on every platform.
pub proof fn lemma_visibility_idempotent(
    platform: Platform,
    state: VisibilityObservation,
    visible: bool,
)
    ensures
        visibility_observation_after(
            platform,
            visibility_observation_after(platform, state, visible),
            visible,
        ) == visibility_observation_after(platform, state, visible),
{
    match platform {
        Platform::Windows => {
            lemma_taskbar_style_idempotent(state.ex_style, visible);
        },
        Platform::MacOs => {},
        Platform::Unsupported => {},
    }
}

} // verus!
