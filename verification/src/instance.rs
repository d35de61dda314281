use vstd::prelude::*;
use crate::bytes::find_name;
use crate::bytes::names_contain;
use crate::errors::ConfigurationError;
use crate::names::debug_utils_extension;
use crate::names::debug_utils_extension_name;
use crate::names::validation_layer;
use crate::names::validation_layer_name;

verus! {

/// What instance creation will request from the driver: the extension and
/// layer names to enable, and whether a diagnostics messenger is to be
/// registered on the new instance.
#[derive(Debug)]
pub struct InstancePlan {
    pub extensions: Vec<Vec<u8>>,
    pub layers: Vec<Vec<u8>>,
    pub register_messenger: bool,
}

/// The extension list a plan must request: the platform-required names in
/// their given order, with the diagnostics extension appended exactly when
/// diagnostics are enabled.
pub open spec fn planned_extensions(required: Seq<Vec<u8>>, diagnostics: bool) -> Seq<Seq<u8>> {
    if diagnostics {
        required.map_values(|v: Vec<u8>| v@).push(debug_utils_extension_name())
    } else {
        required.map_values(|v: Vec<u8>| v@)
    }
}

/// The layer list a plan must request: the validation layer alone when
/// diagnostics are enabled, nothing otherwise.
pub open spec fn planned_layers(diagnostics: bool) -> Seq<Seq<u8>> {
    if diagnostics {
        seq![validation_layer_name()]
    } else {
        Seq::<Seq<u8>>::empty()
    }
}

/// Copies one byte string.
fn copy_bytes(v: &Vec<u8>) -> (r: Vec<u8>)
    ensures
        r@ == v@,
{
    let n = v.len();
    let mut r: Vec<u8> = Vec::new();
    let mut i: usize = 0;
    while i < n
        invariant
            n == v@.len(),
            i <= n,
            r@ == v@.take(i as int),
        decreases n - i,
    {
        r.push(v[i]);
        proof {
            assert(r@ =~= v@.take(i + 1));
        }
        i = i + 1;
    }
    proof {
        assert(v@.take(n as int) =~= v@);
    }
    r
}

/// Decides what instance creation will request, before anything is created.
///
/// Checks the diagnostics configuration against the layers the driver
/// offers and fails with `ConfigurationError` exactly when diagnostics are
/// requested but the expected validation layer is absent — so no instance
/// and no messenger can come into being under a bad configuration. On
/// success the plan carries the platform-required extensions (plus the
/// diagnostics extension when enabled), the layer list, and whether a
/// messenger is to be registered.
pub fn plan_instance(
    required_extensions: &Vec<Vec<u8>>,
    available_layers: &Vec<Vec<u8>>,
    diagnostics: bool,
) -> (r: Result<InstancePlan, ConfigurationError>)
    ensures
        r is Err <==> diagnostics && !names_contain(available_layers@, validation_layer_name()),
        r matches Ok(p) ==> {
            &&& p.extensions@.map_values(|v: Vec<u8>| v@) == planned_extensions(
                required_extensions@,
                diagnostics,
            )
            &&& p.layers@.map_values(|v: Vec<u8>| v@) == planned_layers(diagnostics)
            &&& p.register_messenger == diagnostics
        },
{
    if diagnostics {
        let expected = validation_layer();
        if !find_name(available_layers, &expected) {
            return Err(ConfigurationError);
        }
    }
    let n = required_extensions.len();
    let mut extensions: Vec<Vec<u8>> = Vec::new();
    let mut i: usize = 0;
    while i < n
        invariant
            n == required_extensions@.len(),
            i <= n,
            extensions@.len() == i,
            forall|j: int| 0 <= j < i ==> extensions@[j]@ == required_extensions@[j]@,
        decreases n - i,
    {
        extensions.push(copy_bytes(&required_extensions[i]));
        i = i + 1;
    }
    let mut layers: Vec<Vec<u8>> = Vec::new();
    if diagnostics {
        extensions.push(debug_utils_extension());
        layers.push(validation_layer());
    }
    proof {
        assert(extensions@.map_values(|v: Vec<u8>| v@) =~= planned_extensions(
            required_extensions@,
            diagnostics,
        ));
        assert(layers@.map_values(|v: Vec<u8>| v@) =~= planned_layers(diagnostics));
    }
    Ok(InstancePlan { extensions, layers, register_messenger: diagnostics })
}

} // verus!
