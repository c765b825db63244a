//! What a rendering context reports about itself, and the fence capability
//! that follows from it.

use vstd::prelude::*;
use crate::version::{Api, Version};

verus! {

/// The extension flags that matter for fences.
#[derive(Clone, Copy, Debug, PartialEq, Eq, Structural)]
pub struct ExtensionsList {
    /// The generic sync extension is present.
    pub gl_arb_sync: bool,
    /// Apple's sync extension is present.
    pub gl_apple_sync: bool,
}

/// Which native fence API a context can use.
#[derive(Clone, Copy, Debug, PartialEq, Eq, Structural)]
pub enum Capability {
    /// The entry points of the core API, of the embedded profile, or of the
    /// generic sync extension, which carry the same names.
    CoreOrEsSync,
    /// The generic sync extension on its own. Its entry points are those of
    /// `CoreOrEsSync`, which is what the resolver reports whenever they exist.
    ArbSyncExtension,
    /// The entry points of Apple's sync extension.
    AppleSyncExtension,
    /// No fence API at all.
    Unsupported,
}

/// The snapshot of a rendering context that fence operations read: its version
/// and its extension flags. Neither changes once the context is initialized.
#[derive(Clone, Copy, Debug, PartialEq, Eq, Structural)]
pub struct Context {
    pub version: Version,
    pub extensions: ExtensionsList,
}

impl Context {
    /// The capability of this context. The first rule that matches wins:
    /// core 3.2, embedded 3.0 or the generic extension give `CoreOrEsSync`;
    /// else Apple's extension gives `AppleSyncExtension`; else `Unsupported`.
    pub open spec fn capability(self) -> Capability {
        if self.version.at_least(Version(Api::Gl, 3, 2))
            || self.version.at_least(Version(Api::GlEs, 3, 0))
            || self.extensions.gl_arb_sync {
            Capability::CoreOrEsSync
        } else if self.extensions.gl_apple_sync {
            Capability::AppleSyncExtension
        } else {
            Capability::Unsupported
        }
    }

    /// Whether fences can be created, waited on and deleted in this context.
    pub open spec fn supports_sync(self) -> bool {
        self.capability() != Capability::Unsupported
    }

    /// Resolves the capability of this context. Pure: it reads the snapshot
    /// and nothing else.
    pub fn sync_capability(&self) -> (c: Capability)
        ensures
            c == self.capability(),
    {
        if self.version.is_at_least(&Version(Api::Gl, 3, 2))
            || self.version.is_at_least(&Version(Api::GlEs, 3, 0))
            || self.extensions.gl_arb_sync {
            Capability::CoreOrEsSync
        } else if self.extensions.gl_apple_sync {
            Capability::AppleSyncExtension
        } else {
            Capability::Unsupported
        }
    }
}

/// Resolution is a function of the version and the two flags: contexts that
/// report the same have the same capability. The generic extension on its own
/// is never the answer, since its entry points are the core ones.
pub proof fn capability_is_determined(a: Context, b: Context)
    requires
        a.version == b.version,
        a.extensions == b.extensions,
    ensures
        a.capability() == b.capability(),
        a.capability() != Capability::ArbSyncExtension,
{
}

} // verus!
