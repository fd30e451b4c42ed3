use vstd::prelude::*;

verus! {

/// The desktop platform a build targets. The hosting shell selects one value
/// at build time and passes it to every operation; `Unsupported` stands for
/// any target with no native backend, where both operations are a defined
/// failure rather than an attempt.
#[derive(Clone, Copy, PartialEq, Eq, Structural, Debug)]
pub enum Platform {
    Windows,
    MacOs,
    Unsupported,
}

} // verus!
