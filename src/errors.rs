use vstd::prelude::*;

verus! {

/// Why a physical device was rejected during selection. Never fatal: the
/// device is skipped and the next one is tried.
#[derive(Clone, Copy, Debug, PartialEq, Eq, Structural)]
pub enum SuitabilityError {
    /// The device is not a discrete GPU.
    NotDiscreteGpu,
    /// The device lacks geometry shader support.
    MissingGeometryShader,
    /// No graphics queue family, or no family able to present to the surface.
    MissingQueueFamilies,
    /// One of the required device extensions is not exposed.
    MissingExtensions,
    /// The surface reports no format or no present mode for this device.
    InsufficientSwapchainSupport,
}

/// Failures that abort start-up.
#[derive(Clone, Copy, Debug, PartialEq, Eq, Structural)]
pub enum StartupError {
    /// Validation was requested but the loader does not offer the layer.
    ValidationUnavailable,
    /// No enumerated device passed every suitability check.
    NoSuitableDevice,
    /// The driver rejected instance creation.
    ApiCreationError,
    /// The driver rejected logical device creation.
    DeviceCreationError,
    /// The driver rejected swapchain creation.
    SwapchainCreationError,
    /// The driver rejected the creation of a swapchain image view.
    ImageViewCreationError,
}

impl SuitabilityError {
    /// A short human-readable reason.
    pub fn message(&self) -> (r: String)
        ensures
            r@ == match self {
                SuitabilityError::NotDiscreteGpu => "Only discrete GPU are supported!"@,
                SuitabilityError::MissingGeometryShader => "Missing Geometry Shader Support"@,
                SuitabilityError::MissingQueueFamilies => "Missing required queue families."@,
                SuitabilityError::MissingExtensions => "Missing required device extensions."@,
                SuitabilityError::InsufficientSwapchainSupport => "Insufficient swapchain support."@,
            },
    {
        match self {
            SuitabilityError::NotDiscreteGpu => "Only discrete GPU are supported!".to_string(),
            SuitabilityError::MissingGeometryShader => "Missing Geometry Shader Support".to_string(),
            SuitabilityError::MissingQueueFamilies => "Missing required queue families.".to_string(),
            SuitabilityError::MissingExtensions => "Missing required device extensions.".to_string(),
            SuitabilityError::InsufficientSwapchainSupport => "Insufficient swapchain support.".to_string(),
        }
    }
}

} // verus!
