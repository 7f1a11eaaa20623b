use vstd::prelude::*;

use crate::errors::{StartupError, SuitabilityError};
use crate::names::{contains_all, contains_all_names, device_extension_names, required_device_extensions, views};
use crate::queues::{graphics_pred, has_such, present_pred, QueueFamilyIndices};
use crate::swapchain::SwapchainSupport;

verus! {

/// Class of a physical device.
#[derive(Clone, Copy, Debug, PartialEq, Eq, Structural)]
pub enum DeviceType {
    Other,
    IntegratedGpu,
    DiscreteGpu,
    VirtualGpu,
    Cpu,
}

/// What the driver reports about one enumerated physical device.
#[derive(Clone, Debug)]
pub struct DeviceCandidate {
    pub name: String,
    pub device_type: DeviceType,
    pub geometry_shader: bool,
    /// Capability flags of each queue family, by family index.
    pub queue_family_flags: Vec<u32>,
    /// Whether each queue family can present to the target surface.
    pub present_support: Vec<bool>,
    /// Names of the device's extensions; `None` when the query failed.
    pub extensions: Option<Vec<String>>,
    /// Surface support snapshot; `None` when a query failed.
    pub swapchain_support: Option<SwapchainSupport>,
}

impl DeviceCandidate {
    /// Queue family positions fit in the 32-bit indices the driver uses.
    pub open spec fn wf(&self) -> bool {
        self.queue_family_flags@.len() <= u32::MAX && self.present_support@.len() <= u32::MAX
    }
}

/// The extension list is known and holds every required device extension.
pub open spec fn extensions_ok(extensions: Option<Vec<String>>) -> bool {
    match extensions {
        Some(e) => contains_all(views(e@), required_device_extensions()),
        None => false,
    }
}

/// The support snapshot is known and offers a format and a present mode.
pub open spec fn swapchain_ok(support: Option<SwapchainSupport>) -> bool {
    match support {
        Some(s) => s.formats@.len() > 0 && s.present_modes@.len() > 0,
        None => false,
    }
}

/// The first failed suitability check of a device, in the order in which
/// the checks are made; `None` when the device passes all of them.
pub open spec fn rejection(c: DeviceCandidate) -> Option<SuitabilityError> {
    if c.device_type != DeviceType::DiscreteGpu {
        Some(SuitabilityError::NotDiscreteGpu)
    } else if !c.geometry_shader {
        Some(SuitabilityError::MissingGeometryShader)
    } else if !(has_such(c.queue_family_flags@, graphics_pred()) && has_such(
        c.present_support@,
        present_pred(),
    )) {
        Some(SuitabilityError::MissingQueueFamilies)
    } else if !extensions_ok(c.extensions) {
        Some(SuitabilityError::MissingExtensions)
    } else if !swapchain_ok(c.swapchain_support) {
        Some(SuitabilityError::InsufficientSwapchainSupport)
    } else {
        None
    }
}

pub open spec fn suitable(c: DeviceCandidate) -> bool {
    rejection(c) is None
}

/// Whether the device exposes every required device extension.
fn check_physical_device_extensions(extensions: &Option<Vec<String>>) -> (r: Result<
    (),
    SuitabilityError,
>)
    ensures
        r is Ok <==> extensions_ok(*extensions),
        r matches Err(e) ==> e == SuitabilityError::MissingExtensions,
{
    match extensions {
        Some(available) => {
            let required = device_extension_names();
            if contains_all_names(available, &required) {
                Ok(())
            } else {
                Err(SuitabilityError::MissingExtensions)
            }
        },
        None => Err(SuitabilityError::MissingExtensions),
    }
}

/// Runs the suitability checks on one device, stopping at the first failure.
pub fn check_physical_device(candidate: &DeviceCandidate) -> (r: Result<(), SuitabilityError>)
    requires
        candidate.wf(),
    ensures
        match rejection(*candidate) {
            None => r is Ok,
            Some(e) => r == Err::<(), SuitabilityError>(e),
        },
{
    if candidate.device_type != DeviceType::DiscreteGpu {
        return Err(SuitabilityError::NotDiscreteGpu);
    }
    if !candidate.geometry_shader {
        return Err(SuitabilityError::MissingGeometryShader);
    }
    QueueFamilyIndices::get(&candidate.queue_family_flags, &candidate.present_support)?;
    check_physical_device_extensions(&candidate.extensions)?;
    match &candidate.swapchain_support {
        Some(support) => {
            if support.formats.len() == 0 || support.present_modes.len() == 0 {
                return Err(SuitabilityError::InsufficientSwapchainSupport);
            }
        },
        None => {
            return Err(SuitabilityError::InsufficientSwapchainSupport);
        },
    }
    Ok(())
}

/// Picks the first device, in enumeration order, that passes every check.
pub fn pick_physical_device(candidates: &Vec<DeviceCandidate>) -> (r: Result<usize, StartupError>)
    requires
        forall|i: int| 0 <= i < candidates@.len() ==> (#[trigger] candidates@[i]).wf(),
    ensures
        r is Ok <==> exists|i: int| 0 <= i < candidates@.len() && suitable(#[trigger] candidates@[i]),
        r matches Ok(i) ==> i < candidates@.len() && suitable(candidates@[i as int]) && forall|j: int|
            0 <= j < i ==> !suitable(#[trigger] candidates@[j]),
        r matches Err(e) ==> e == StartupError::NoSuitableDevice,
{
    let mut i: usize = 0;
    while i < candidates.len()
        invariant
            i <= candidates@.len(),
            forall|k: int| 0 <= k < candidates@.len() ==> (#[trigger] candidates@[k]).wf(),
            forall|j: int| 0 <= j < i ==> !suitable(#[trigger] candidates@[j]),
        decreases candidates@.len() - i,
    {
        if check_physical_device(&candidates[i]).is_ok() {
            return Ok(i);
        }
        i += 1;
    }
    Err(StartupError::NoSuitableDevice)
}

} // verus!
