use vstd::prelude::*;

use crate::error::BootstrapError;

verus! {

/// Alpha precision the renderer needs from any accepted config.
pub const REQUIRED_ALPHA_BITS: u8 = 8;

/// A pixel-format request handed to the windowing layer during native
/// provisioning: the renderer needs at least this much alpha precision.
#[derive(Clone, Copy, Debug, PartialEq, Eq, Structural)]
pub struct PixelFormatRequest {
    pub alpha_bits: u8,
}

/// A pixel format offered by the windowing layer, reduced to the attributes
/// the bootstrap logic reads: its alpha precision and the display it was
/// negotiated on.
#[derive(Clone, Copy, Debug, PartialEq, Eq, Structural)]
pub struct PixelFormatConfig {
    pub alpha_bits: u8,
    pub display_id: u64,
}

/// A config satisfies a request when it offers at least the requested alpha
/// precision.
pub open spec fn config_satisfies(config: PixelFormatConfig, request: PixelFormatRequest) -> bool {
    config.alpha_bits >= request.alpha_bits
}

/// The tie-break policy of provisioning: when several offered configs satisfy
/// the request, the first one offered is accepted, with no further scoring.
pub open spec fn is_first_satisfying(
    request: PixelFormatRequest,
    offered: Seq<PixelFormatConfig>,
    i: int,
) -> bool {
    &&& 0 <= i < offered.len()
    &&& config_satisfies(offered[i], request)
    &&& forall|j: int| 0 <= j < i ==> !config_satisfies(offered[j], request)
}

/// Select the config the provisioner accepts: the first offered config that
/// satisfies the request. Fails with `NoCompatibleConfig` exactly when no
/// offered config satisfies the request.
pub fn select_config(request: &PixelFormatRequest, offered: &Vec<PixelFormatConfig>) -> (r: Result<
    usize,
    BootstrapError,
>)
    ensures
        r matches Ok(i) ==> is_first_satisfying(*request, offered@, i as int),
        r is Err ==> r == Err::<usize, BootstrapError>(BootstrapError::NoCompatibleConfig),
        r is Ok <==> exists|j: int|
            0 <= j < offered@.len() && config_satisfies(#[trigger] offered@[j], *request),
{
    let mut k: usize = 0;
    while k < offered.len()
        invariant
            k <= offered@.len(),
            forall|j: int| 0 <= j < k ==> !config_satisfies(offered@[j], *request),
        decreases offered@.len() - k,
    {
        if offered[k].alpha_bits >= request.alpha_bits {
            return Ok(k);
        }
        k += 1;
    }
    Err(BootstrapError::NoCompatibleConfig)
}

/// Law: a config accepted for a request of eight alpha bits never has fewer
/// than eight alpha bits. Negotiation either honours the requested alpha
/// precision or fails; it never degrades it.
pub proof fn lemma_alpha_precision_honored(
    request: PixelFormatRequest,
    offered: Seq<PixelFormatConfig>,
    i: int,
)
    requires
        request.alpha_bits == REQUIRED_ALPHA_BITS,
        is_first_satisfying(request, offered, i),
    ensures
        offered[i].alpha_bits >= REQUIRED_ALPHA_BITS,
{
}

/// Law: when no offered config satisfies the request, nothing can be
/// selected — negotiation fails, and the bootstrap halts before any window
/// state exists.
pub proof fn lemma_unsatisfiable_request_selects_nothing(
    request: PixelFormatRequest,
    offered: Seq<PixelFormatConfig>,
)
    requires
        forall|j: int| 0 <= j < offered.len() ==> !config_satisfies(#[trigger] offered[j], request),
    ensures
        forall|i: int| !is_first_satisfying(request, offered, i),
{
}

/// Law: the accepted config is uniquely determined — two indices that both
/// point at a first satisfying config are the same index, so the tie-break
/// policy leaves the windowing layer no choice.
pub proof fn lemma_selection_deterministic(
    request: PixelFormatRequest,
    offered: Seq<PixelFormatConfig>,
    i1: int,
    i2: int,
)
    requires
        is_first_satisfying(request, offered, i1),
        is_first_satisfying(request, offered, i2),
    ensures
        i1 == i2,
{
}

} // verus!
