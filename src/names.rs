use vstd::prelude::*;

verus! {

/// The Khronos validation layer.
pub open spec fn validation_layer() -> Seq<char> {
    "VK_LAYER_KHRONOS_validation"@
}

/// The swapchain device extension.
pub open spec fn swapchain_extension() -> Seq<char> {
    "VK_KHR_swapchain"@
}

/// The debug-utils instance extension.
pub open spec fn debug_utils_extension() -> Seq<char> {
    "VK_EXT_debug_utils"@
}

/// The instance extension that extended property queries need on macOS.
pub open spec fn properties2_extension() -> Seq<char> {
    "VK_KHR_get_physical_device_properties2"@
}

/// The instance extension that lists portability drivers.
pub open spec fn portability_enumeration_extension() -> Seq<char> {
    "VK_KHR_portability_enumeration"@
}

/// The device extension that portability drivers require.
pub open spec fn portability_subset_extension() -> Seq<char> {
    "VK_KHR_portability_subset"@
}

/// Device extensions that every selected device must expose.
pub open spec fn required_device_extensions() -> Seq<Seq<char>> {
    seq![swapchain_extension()]
}

/// The character sequences of a list of names.
pub open spec fn views(s: Seq<String>) -> Seq<Seq<char>> {
    s.map_values(|x: String| x@)
}

/// Every name of `required` occurs in `available`.
pub open spec fn contains_all(available: Seq<Seq<char>>, required: Seq<Seq<char>>) -> bool {
    forall|i: int| 0 <= i < required.len() ==> available.contains(#[trigger] required[i])
}

pub fn validation_layer_name() -> (r: String)
    ensures
        r@ == validation_layer(),
{
    "VK_LAYER_KHRONOS_validation".to_string()
}

pub fn swapchain_extension_name() -> (r: String)
    ensures
        r@ == swapchain_extension(),
{
    "VK_KHR_swapchain".to_string()
}

pub fn debug_utils_extension_name() -> (r: String)
    ensures
        r@ == debug_utils_extension(),
{
    "VK_EXT_debug_utils".to_string()
}

pub fn properties2_extension_name() -> (r: String)
    ensures
        r@ == properties2_extension(),
{
    "VK_KHR_get_physical_device_properties2".to_string()
}

pub fn portability_enumeration_extension_name() -> (r: String)
    ensures
        r@ == portability_enumeration_extension(),
{
    "VK_KHR_portability_enumeration".to_string()
}

pub fn portability_subset_extension_name() -> (r: String)
    ensures
        r@ == portability_subset_extension(),
{
    "VK_KHR_portability_subset".to_string()
}

/// The fixed list of device extensions a device must expose.
pub fn device_extension_names() -> (r: Vec<String>)
    ensures
        views(r@) == required_device_extensions(),
{
    let mut r: Vec<String> = Vec::new();
    r.push(swapchain_extension_name());
    assert(views(r@) =~= required_device_extensions());
    r
}

/// Whether `name` occurs in `list`.
pub fn contains_name(list: &Vec<String>, name: &String) -> (r: bool)
    ensures
        r == views(list@).contains(name@),
{
    let mut i: usize = 0;
    while i < list.len()
        invariant
            i <= list@.len(),
            forall|j: int| 0 <= j < i ==> list@[j]@ != name@,
        decreases list@.len() - i,
    {
        if list[i] == *name {
            assert(views(list@)[i as int] == name@);
            return true;
        }
        i += 1;
    }
    assert(!views(list@).contains(name@)) by {
        if views(list@).contains(name@) {
            let k = choose|k: int| 0 <= k < views(list@).len() && views(list@)[k] == name@;
            assert(list@[k]@ == name@);
        }
    }
    false
}

/// Whether every name of `required` occurs in `available`.
pub fn contains_all_names(available: &Vec<String>, required: &Vec<String>) -> (r: bool)
    ensures
        r == contains_all(views(available@), views(required@)),
{
    let mut i: usize = 0;
    while i < required.len()
        invariant
            i <= required@.len(),
            forall|j: int| 0 <= j < i ==> views(available@).contains(#[trigger] views(required@)[j]),
        decreases required@.len() - i,
    {
        if !contains_name(available, &required[i]) {
            assert(!views(available@).contains(views(required@)[i as int]));
            return false;
        }
        i += 1;
    }
    true
}

} // verus!
