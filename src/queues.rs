use vstd::prelude::*;

use crate::errors::SuitabilityError;

verus! {

/// Capability bit of a queue family that accepts graphics commands.
pub const QUEUE_GRAPHICS_BIT: u32 = 1;

/// Whether a queue family's capability flags include graphics submission.
pub open spec fn supports_graphics(flags: u32) -> bool {
    flags & QUEUE_GRAPHICS_BIT == QUEUE_GRAPHICS_BIT
}

/// `i` is the first position of `s` whose entry satisfies `p`.
pub open spec fn is_first_such<T>(s: Seq<T>, p: spec_fn(T) -> bool, i: int) -> bool {
    &&& 0 <= i < s.len()
    &&& p(s[i])
    &&& forall|j: int| 0 <= j < i ==> !p(#[trigger] s[j])
}

/// Some position of `s` satisfies `p`.
pub open spec fn has_such<T>(s: Seq<T>, p: spec_fn(T) -> bool) -> bool {
    exists|i: int| 0 <= i < s.len() && p(#[trigger] s[i])
}

pub open spec fn graphics_pred() -> spec_fn(u32) -> bool {
    |f: u32| supports_graphics(f)
}

pub open spec fn present_pred() -> spec_fn(bool) -> bool {
    |b: bool| b
}

/// Indices of the queue families used for graphics and for presentation.
/// The two may coincide.
#[derive(Clone, Copy, Debug, PartialEq, Eq, Structural)]
pub struct QueueFamilyIndices {
    pub graphics: u32,
    pub present: u32,
}

/// Position of the first family whose flags include graphics, if any.
fn first_graphics_family(family_flags: &Vec<u32>) -> (r: Option<u32>)
    requires
        family_flags@.len() <= u32::MAX,
    ensures
        match r {
            Some(i) => is_first_such(family_flags@, graphics_pred(), i as int),
            None => !has_such(family_flags@, graphics_pred()),
        },
{
    let mut i: usize = 0;
    while i < family_flags.len()
        invariant
            i <= family_flags@.len() <= u32::MAX,
            forall|j: int| 0 <= j < i ==> !supports_graphics(#[trigger] family_flags@[j]),
        decreases family_flags@.len() - i,
    {
        if family_flags[i] & QUEUE_GRAPHICS_BIT == QUEUE_GRAPHICS_BIT {
            return Some(i as u32);
        }
        i += 1;
    }
    None
}

/// Position of the first family that can present to the surface, if any.
fn first_present_family(present_support: &Vec<bool>) -> (r: Option<u32>)
    requires
        present_support@.len() <= u32::MAX,
    ensures
        match r {
            Some(i) => is_first_such(present_support@, present_pred(), i as int),
            None => !has_such(present_support@, present_pred()),
        },
{
    let mut i: usize = 0;
    while i < present_support.len()
        invariant
            i <= present_support@.len() <= u32::MAX,
            forall|j: int| 0 <= j < i ==> !(#[trigger] present_support@[j]),
        decreases present_support@.len() - i,
    {
        if present_support[i] {
            return Some(i as u32);
        }
        i += 1;
    }
    None
}

impl QueueFamilyIndices {
    /// Resolves the graphics and present families of one device.
    ///
    /// `family_flags[i]` holds the capability flags of family `i`;
    /// `present_support[i]` tells whether family `i` can present to the
    /// target surface (a failed query counts as `false`). The two roles are
    /// scanned independently; both must be found.
    pub fn get(family_flags: &Vec<u32>, present_support: &Vec<bool>) -> (r: Result<
        QueueFamilyIndices,
        SuitabilityError,
    >)
        requires
            family_flags@.len() <= u32::MAX,
            present_support@.len() <= u32::MAX,
        ensures
            r is Ok <==> has_such(family_flags@, graphics_pred()) && has_such(
                present_support@,
                present_pred(),
            ),
            r matches Ok(q) ==> is_first_such(family_flags@, graphics_pred(), q.graphics as int)
                && is_first_such(present_support@, present_pred(), q.present as int),
            r matches Err(e) ==> e == SuitabilityError::MissingQueueFamilies,
    {
        let graphics = first_graphics_family(family_flags);
        let present = first_present_family(present_support);
        match (graphics, present) {
            (Some(graphics), Some(present)) => Ok(QueueFamilyIndices { graphics, present }),
            _ => Err(SuitabilityError::MissingQueueFamilies),
        }
    }
}

} // verus!
