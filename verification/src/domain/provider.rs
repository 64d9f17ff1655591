//! The upstream providers that a source can be bound to.
use vstd::prelude::*;

verus! {

/// An upstream music provider.
#[derive(Debug, Clone, Copy, PartialEq, Eq, Structural)]
pub enum ProviderKind {
    KugouLite,
}

/// The name of a provider as stored and listed.
pub open spec fn provider_name(p: ProviderKind) -> Seq<char> {
    match p {
        ProviderKind::KugouLite => "kugou_lite"@,
    }
}

impl ProviderKind {
    /// The name of the provider, as shown in source listings.
    pub fn name(&self) -> (r: &'static str)
        ensures
            r@ == provider_name(*self),
    {
        match self {
            ProviderKind::KugouLite => "kugou_lite",
        }
    }
}

} // verus!
