use vstd::prelude::*;

verus! {

/// The host operating-system family, resolved once at startup by the host
/// layer and passed in as plain data, so that all platform branching is a
/// pure, testable function of this value.
#[derive(Clone, Copy, PartialEq, Eq, Structural, Debug)]
pub enum HostOs {
    /// Desktop OS with native app-bundle semantics: the sidecar runs as a
    /// script under a script interpreter.
    AppBundle,
    /// OS with native installer/bundle semantics: the sidecar is a
    /// standalone compiled binary shipped inside the bundle.
    Installer,
    /// Any other OS family: the sidecar runs as a script with a different
    /// file extension.
    Other,
}

} // verus!
