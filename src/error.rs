use vstd::prelude::*;

verus! {

/// The ways a builder, handle or wrangler operation can fail.
#[derive(PartialEq, Eq, Structural, Debug, Clone, Copy)]
pub enum WorkbenchError {
    /// The bundle does not resolve to exactly one root, or holds no manifest metadata.
    BundleFormat,
    /// An actor was to be created before any code was installed.
    ManifestNotLoaded,
    /// Code was installed a second time on the same builder.
    AlreadyInstalled,
    /// The requested built-in type id is absent from the manifest.
    UnknownTypeId,
    /// An actor that a later step relies on (System, Init, a sender) is missing.
    ActorNotFound,
    /// An actor's state is missing from the store or does not decode.
    Serialization,
    /// An address could not be mapped to an actor id.
    AddressUnresolvable,
    /// The Init actor has no actor id left to hand out.
    IdSpaceExhausted,
    /// The sender's sequence number cannot be advanced any further.
    NonceExhausted,
}

} // verus!
