use vstd::prelude::*;

use crate::errors::StartupError;
use crate::logical::{layer_names, requested_layers};
use crate::names::{
    contains_name, debug_utils_extension, debug_utils_extension_name,
    portability_enumeration_extension, portability_enumeration_extension_name,
    properties2_extension, properties2_extension_name, validation_layer, validation_layer_name,
    views,
};

verus! {

/// What to ask of the loader when creating the instance.
#[derive(Clone, Debug)]
pub struct InstanceRequest {
    pub layers: Vec<String>,
    pub extensions: Vec<String>,
    /// Set the flag that lists portability drivers.
    pub enumerate_portability: bool,
    /// Chain a debug messenger descriptor into the request, and create a
    /// messenger once the instance exists.
    pub debug_messenger: bool,
}

/// The platform's surface extensions, then the debug-utils extension when
/// validation is on, then the two portability extensions when needed.
pub open spec fn requested_instance_extensions(
    platform: Seq<Seq<char>>,
    validation_enabled: bool,
    portability: bool,
) -> Seq<Seq<char>> {
    platform + (if validation_enabled {
        seq![debug_utils_extension()]
    } else {
        Seq::empty()
    }) + (if portability {
        seq![properties2_extension(), portability_enumeration_extension()]
    } else {
        Seq::empty()
    })
}

/// Copies a list of names.
fn copy_names(names: &Vec<String>) -> (r: Vec<String>)
    ensures
        views(r@) == views(names@),
{
    let mut r: Vec<String> = Vec::new();
    let mut i: usize = 0;
    while i < names.len()
        invariant
            i <= names@.len(),
            views(r@) =~= views(names@.subrange(0, i as int)),
        decreases names@.len() - i,
    {
        let ghost prev = r@;
        r.push(names[i].clone());
        assert(names@.subrange(0, i + 1) =~= names@.subrange(0, i as int).push(names@[i as int]));
        assert(views(r@) =~= views(prev).push(names@[i as int]@));
        i += 1;
    }
    assert(names@.subrange(0, names@.len() as int) =~= names@);
    r
}

/// Assembles the instance creation request.
///
/// `platform_extensions` are the surface extensions the window system needs;
/// `available_layers` are the layers the loader offers. Fails when validation
/// is on and the loader lacks the validation layer.
pub fn plan_instance(
    platform_extensions: &Vec<String>,
    available_layers: &Vec<String>,
    validation_enabled: bool,
    portability: bool,
) -> (r: Result<InstanceRequest, StartupError>)
    ensures
        r is Err <==> validation_enabled && !views(available_layers@).contains(validation_layer()),
        r matches Err(e) ==> e == StartupError::ValidationUnavailable,
        r matches Ok(req) ==> {
            &&& views(req.layers@) == requested_layers(validation_enabled)
            &&& views(req.extensions@) == requested_instance_extensions(
                views(platform_extensions@),
                validation_enabled,
                portability,
            )
            &&& req.enumerate_portability == portability
            &&& req.debug_messenger == validation_enabled
        },
{
    if validation_enabled && !contains_name(available_layers, &validation_layer_name()) {
        return Err(StartupError::ValidationUnavailable);
    }
    let layers = layer_names(validation_enabled);
    let mut extensions = copy_names(platform_extensions);
    let ghost platform = views(platform_extensions@);
    if validation_enabled {
        extensions.push(debug_utils_extension_name());
        assert(views(extensions@) =~= platform + seq![debug_utils_extension()]);
    } else {
        assert(views(extensions@) =~= platform + Seq::<Seq<char>>::empty());
    }
    let ghost middle = views(extensions@);
    if portability {
        extensions.push(properties2_extension_name());
        extensions.push(portability_enumeration_extension_name());
        assert(views(extensions@) =~= middle + seq![
            properties2_extension(),
            portability_enumeration_extension(),
        ]);
    } else {
        assert(views(extensions@) =~= middle + Seq::<Seq<char>>::empty());
    }
    Ok(InstanceRequest {
        layers,
        extensions,
        enumerate_portability: portability,
        debug_messenger: validation_enabled,
    })
}

} // verus!
