//! Choice of the dot-product kernel that a build compiles.

use vstd::prelude::*;

verus! {

/// The interchangeable implementations of the dot-product kernel.
#[derive(Debug, Clone, Copy, PartialEq, Eq, Structural)]
pub enum DotprodVariant {
    /// Plain C arithmetic, available on every target.
    Portable,
    /// The kernel written with SSE intrinsics.
    Sse,
}

impl DotprodVariant {
    /// The key of the variant in the make rules.
    pub open spec fn spec_key(self) -> Seq<char> {
        match self {
            DotprodVariant::Portable => "portable"@,
            DotprodVariant::Sse => "sse"@,
        }
    }

    /// The key of the variant in the make rules.
    pub fn key(self) -> (key: &'static str)
        ensures
            key@ == self.spec_key(),
    {
        match self {
            DotprodVariant::Portable => "portable",
            DotprodVariant::Sse => "sse",
        }
    }
}

/// The two keys differ, so a choice of variant is a choice of key.
pub proof fn lemma_keys_differ()
    ensures
        DotprodVariant::Portable.spec_key() != DotprodVariant::Sse.spec_key(),
{
    reveal_strlit("portable");
    reveal_strlit("sse");
    assert("portable"@.len() != "sse"@.len());
}

/// The variant that a build compiles: the portable one whenever the override
/// is active, else the SSE one exactly when the target has SSE.
pub open spec fn selected_variant(simd_override: bool, have_sse: bool) -> DotprodVariant {
    if simd_override {
        DotprodVariant::Portable
    } else if have_sse {
        DotprodVariant::Sse
    } else {
        DotprodVariant::Portable
    }
}

/// Picks the one dot-product variant of a build.
pub fn select_variant(simd_override: bool, have_sse: bool) -> (variant: DotprodVariant)
    ensures
        variant == selected_variant(simd_override, have_sse),
{
    if !simd_override && have_sse {
        DotprodVariant::Sse
    } else {
        DotprodVariant::Portable
    }
}

/// With the override active the portable variant is selected whatever the
/// target has; without it, the SSE variant exactly on a target with SSE.
pub proof fn lemma_selection(simd_override: bool, have_sse: bool)
    ensures
        simd_override ==> selected_variant(simd_override, have_sse) == DotprodVariant::Portable,
        !simd_override && have_sse ==> selected_variant(simd_override, have_sse)
            == DotprodVariant::Sse,
        !simd_override && !have_sse ==> selected_variant(simd_override, have_sse)
            == DotprodVariant::Portable,
{
}

} // verus!
