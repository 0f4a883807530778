//! The entry module's identity: a specifier with an explicit scheme.

use vstd::prelude::*;

verus! {

/// The process-wide entry-module identity. The host establishes it once, at
/// startup, and it never changes afterwards; resolution only reads it.
///
/// A specifier whose scheme names the local filesystem also carries the
/// native path it converts to. The host performs that conversion when the
/// value is created; a local-file specifier that cannot be converted is a
/// fatal startup defect, so every local-file value holds a converted path.
pub enum ModuleIdentity {
    /// A specifier with the local-file scheme.
    LocalFile {
        /// The full string form of the specifier.
        serialized: String,
        /// The native filesystem path the specifier converts to.
        native_path: String,
    },
    /// A specifier with any other scheme, such as a remote URL.
    Remote {
        /// The full string form of the specifier.
        serialized: String,
    },
}

impl ModuleIdentity {
    /// Whether the scheme names the local filesystem.
    pub open spec fn is_local(&self) -> bool {
        match self {
            ModuleIdentity::LocalFile { .. } => true,
            ModuleIdentity::Remote { .. } => false,
        }
    }

    /// The string form of the specifier.
    pub open spec fn spec_serialized(&self) -> Seq<char> {
        match self {
            ModuleIdentity::LocalFile { serialized, .. } => serialized@,
            ModuleIdentity::Remote { serialized } => serialized@,
        }
    }

    /// The native path of a local-file specifier; empty for any other scheme.
    pub open spec fn spec_native_path(&self) -> Seq<char> {
        match self {
            ModuleIdentity::LocalFile { native_path, .. } => native_path@,
            ModuleIdentity::Remote { .. } => Seq::<char>::empty(),
        }
    }

    /// The string form, as resolution discloses it for non-local schemes.
    pub fn serialized(&self) -> (r: &String)
        ensures
            r@ == self.spec_serialized(),
    {
        match self {
            ModuleIdentity::LocalFile { serialized, .. } => serialized,
            ModuleIdentity::Remote { serialized } => serialized,
        }
    }
}

} // verus!
