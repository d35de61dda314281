use vstd::prelude::*;

verus! {

/// Name of the diagnostic (validation) layer that instance and device
/// creation enable when diagnostics are requested, as ASCII bytes:
/// `VK_LAYER_KHRONOS_validation`.
pub open spec fn validation_layer_name() -> Seq<u8> {
    seq![
        86u8, 75, 95, 76, 65, 89, 69, 82, 95, 75, 72, 82, 79, 78, 79, 83, 95, 118, 97, 108,
        105, 100, 97, 116, 105, 111, 110,
    ]
}

/// The validation layer name as a byte string.
pub fn validation_layer() -> (r: Vec<u8>)
    ensures
        r@ == validation_layer_name(),
{
    let r: Vec<u8> = vec![
        86u8, 75, 95, 76, 65, 89, 69, 82, 95, 75, 72, 82, 79, 78, 79, 83, 95, 118, 97, 108,
        105, 100, 97, 116, 105, 111, 110,
    ];
    proof {
        assert(r@ =~= validation_layer_name());
    }
    r
}

/// Name of the diagnostics extension that carries driver messages to the
/// application's sink, as ASCII bytes: `VK_EXT_debug_utils`.
pub open spec fn debug_utils_extension_name() -> Seq<u8> {
    seq![86u8, 75, 95, 69, 88, 84, 95, 100, 101, 98, 117, 103, 95, 117, 116, 105, 108, 115]
}

/// The diagnostics extension name as a byte string.
pub fn debug_utils_extension() -> (r: Vec<u8>)
    ensures
        r@ == debug_utils_extension_name(),
{
    let r: Vec<u8> = vec![
        86u8, 75, 95, 69, 88, 84, 95, 100, 101, 98, 117, 103, 95, 117, 116, 105, 108, 115,
    ];
    proof {
        assert(r@ =~= debug_utils_extension_name());
    }
    r
}

/// The vendor tag that a device name must carry to pass the placeholder
/// vendor filter used during device selection, as ASCII bytes: `NVIDIA`.
pub open spec fn vendor_tag_name() -> Seq<u8> {
    seq![78u8, 86, 73, 68, 73, 65]
}

/// The vendor tag as a byte string.
pub fn vendor_tag() -> (r: Vec<u8>)
    ensures
        r@ == vendor_tag_name(),
{
    let r: Vec<u8> = vec![78u8, 86, 73, 68, 73, 65];
    proof {
        assert(r@ =~= vendor_tag_name());
    }
    r
}

} // verus!
