use vstd::prelude::*;

use crate::names::{
    device_extension_names, portability_subset_extension, portability_subset_extension_name,
    required_device_extensions, validation_layer, validation_layer_name, views,
};
use crate::queues::QueueFamilyIndices;

verus! {

/// What to ask of the driver when creating the logical device. Each listed
/// family gets one queue at full priority. Of the optional features only
/// those that device selection insists on are enabled.
#[derive(Clone, Debug)]
pub struct DeviceRequest {
    /// Distinct queue families, one creation descriptor each.
    pub queue_families: Vec<u32>,
    pub layers: Vec<String>,
    pub extensions: Vec<String>,
    /// Enable geometry shaders, which every selected device supports.
    pub geometry_shader: bool,
}

/// The distinct members of `{graphics, present}`, graphics first.
pub open spec fn unique_families(indices: QueueFamilyIndices) -> Seq<u32> {
    if indices.graphics == indices.present {
        seq![indices.graphics]
    } else {
        seq![indices.graphics, indices.present]
    }
}

/// The validation layer when validation is on, else nothing.
pub open spec fn requested_layers(validation_enabled: bool) -> Seq<Seq<char>> {
    if validation_enabled {
        seq![validation_layer()]
    } else {
        Seq::empty()
    }
}

/// The required device extensions, plus the portability subset when needed.
pub open spec fn requested_device_extensions(portability: bool) -> Seq<Seq<char>> {
    if portability {
        required_device_extensions().push(portability_subset_extension())
    } else {
        required_device_extensions()
    }
}

/// The validation layer list for instance and device creation.
pub fn layer_names(validation_enabled: bool) -> (r: Vec<String>)
    ensures
        views(r@) == requested_layers(validation_enabled),
{
    let mut layers: Vec<String> = Vec::new();
    if validation_enabled {
        layers.push(validation_layer_name());
    }
    assert(views(layers@) =~= requested_layers(validation_enabled));
    layers
}

/// One entry per distinct queue family of `indices`.
pub fn unique_queue_families(indices: &QueueFamilyIndices) -> (r: Vec<u32>)
    ensures
        r@ == unique_families(*indices),
        r@.no_duplicates(),
        r@.to_set() == set![indices.graphics, indices.present],
{
    let mut r: Vec<u32> = Vec::new();
    r.push(indices.graphics);
    if indices.present != indices.graphics {
        r.push(indices.present);
    }
    assert(r@ =~= unique_families(*indices));
    assert(r@.to_set() =~= set![indices.graphics, indices.present]) by {
        assert(r@.contains(indices.graphics)) by { assert(r@[0] == indices.graphics); }
        assert(r@.contains(indices.present)) by {
            if indices.present != indices.graphics {
                assert(r@[1] == indices.present);
            } else {
                assert(r@[0] == indices.present);
            }
        }
    }
    r
}

/// Assembles the logical device creation request.
pub fn plan_logical_device(
    indices: &QueueFamilyIndices,
    validation_enabled: bool,
    portability: bool,
) -> (r: DeviceRequest)
    ensures
        r.queue_families@ == unique_families(*indices),
        views(r.layers@) == requested_layers(validation_enabled),
        views(r.extensions@) == requested_device_extensions(portability),
        r.geometry_shader,
{
    let queue_families = unique_queue_families(indices);
    let layers = layer_names(validation_enabled);
    let mut extensions = device_extension_names();
    if portability {
        let ghost before = extensions@;
        extensions.push(portability_subset_extension_name());
        assert(views(extensions@) =~= views(before).push(portability_subset_extension()));
    }
    DeviceRequest { queue_families, layers, extensions, geometry_shader: true }
}

} // verus!
