use vstd::prelude::*;

use crate::capture::AttributeWrite;
use crate::capture::SharingType;
use crate::capture::capture_attribute_writes;
use crate::capture::capture_writes;
use crate::capture::sharing_type_for;
use crate::capture::sharing_type_spec;
use crate::platform::Platform;
use crate::text::contains_seq;
use crate::visibility::ActivationPolicy;
use crate::visibility::activation_policy_for;
use crate::visibility::activation_policy_spec;

verus! {

/// The native work that realizes one capture-protection request; the hosting
/// shell performs it on the window handle it resolved.
#[derive(Debug)]
pub enum CaptureCommand {
    /// Compositor attribute writes, to be attempted in the order given; a
    /// failing load-bearing write ends the sequence, a failing best-effort
    /// write is swallowed.
    DwmWrites(Vec<AttributeWrite>),
    /// Window-server sharing type to set on the window.
    SetSharing(SharingType),
}

/// The native work that realizes one taskbar-visibility request.
#[derive(Clone, Copy, PartialEq, Eq, Structural, Debug)]
pub enum VisibilityCommand {
    /// Read the window's extended style mask, recompute it with
    /// `crate::visibility::taskbar_ex_style` for this visibility, and write
    /// it back, all in one read-modify-write.
    UpdateWindowStyle { visible: bool },
    /// Set the application-wide activation policy.
    SetActivationPolicy(ActivationPolicy),
}

/// The refusal returned for a capture-protection request on a platform with
/// no backend.
pub open spec fn capture_unsupported_message() -> Seq<char> {
    "Screen capture protection is not supported on this platform"@
}

/// The refusal returned for a taskbar-visibility request on a platform with
/// no backend.
pub open spec fn taskbar_unsupported_message() -> Seq<char> {
    "Taskbar visibility control is not supported on this platform"@
}

/// Decides the native work for a capture-protection request. On the
/// unsupported platform the request is refused outright, so no native call is
/// ever attempted there.
pub fn set_screen_capture_protection(platform: Platform, enabled: bool) -> (command: Result<
    CaptureCommand,
    String,
>)
    ensures
        platform == Platform::Windows ==> (command matches Ok(CaptureCommand::DwmWrites(writes))
            && writes@ == capture_writes(enabled)),
        platform == Platform::MacOs ==> (command matches Ok(CaptureCommand::SetSharing(sharing))
            && sharing == sharing_type_spec(enabled)),
        platform == Platform::Unsupported ==> (command matches Err(message)
            && message@ == capture_unsupported_message()),
{
    match platform {
        Platform::Windows => Ok(CaptureCommand::DwmWrites(capture_attribute_writes(enabled))),
        Platform::MacOs => Ok(CaptureCommand::SetSharing(sharing_type_for(enabled))),
        Platform::Unsupported => Err(
            "Screen capture protection is not supported on this platform".to_owned(),
        ),
    }
}

/// Decides the native work for a taskbar-visibility request. On the
/// unsupported platform the request is refused outright, so no native call is
/// ever attempted there.
pub fn set_taskbar_visibility(platform: Platform, visible: bool) -> (command: Result<
    VisibilityCommand,
    String,
>)
    ensures
        platform == Platform::Windows ==> command == Ok::<VisibilityCommand, String>(
            VisibilityCommand::UpdateWindowStyle { visible },
        ),
        platform == Platform::MacOs ==> command == Ok::<VisibilityCommand, String>(
            VisibilityCommand::SetActivationPolicy(activation_policy_spec(visible)),
        ),
        platform == Platform::Unsupported ==> (command matches Err(message)
            && message@ == taskbar_unsupported_message()),
{
    match platform {
        Platform::Windows => Ok(VisibilityCommand::UpdateWindowStyle { visible }),
        Platform::MacOs => Ok(VisibilityCommand::SetActivationPolicy(activation_policy_for(visible))),
        Platform::Unsupported => Err(
            "Taskbar visibility control is not supported on this platform".to_owned(),
        ),
    }
}

/// Both unsupported-platform refusals name the feature as not supported.
pub proof fn lemma_unsupported_messages_mention_support()
    ensures
        contains_seq(capture_unsupported_message(), "not supported"@),
        contains_seq(taskbar_unsupported_message(), "not supported"@),
{
    reveal_strlit("Screen capture protection is not supported on this platform");
    reveal_strlit("Taskbar visibility control is not supported on this platform");
    reveal_strlit("not supported");
    let needle = "not supported"@;
    assert(capture_unsupported_message().subrange(29, 29 + needle.len() as int) =~= needle);
    assert(taskbar_unsupported_message().subrange(30, 30 + needle.len() as int) =~= needle);
}

} // verus!
