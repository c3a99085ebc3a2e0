use vstd::prelude::*;
use crate::error::RenderError;
use crate::queue::{families_suffice, find_queue_families, QueueFamilyInfo};
use crate::swapchain::SwapChainSupportDetails;

verus! {

/// The validation layer turned on in checked builds.
pub const VALIDATION_LAYER_NAME: &'static str = "VK_LAYER_KHRONOS_validation";

/// The device extension that presenting needs.
pub const SWAPCHAIN_EXTENSION_NAME: &'static str = "VK_KHR_swapchain";

/// Whether every name in `required` occurs in `available`.
pub open spec fn names_present(required: Seq<Seq<char>>, available: Seq<Seq<char>>) -> bool {
    forall|i: int| 0 <= i < required.len() ==> #[trigger] available.contains(required[i])
}

/// The names held by a list of strings.
pub open spec fn names_of(v: Seq<String>) -> Seq<Seq<char>> {
    v.map_values(|s: String| s@)
}

pub open spec fn validation_layer_names() -> Seq<Seq<char>> {
    seq![VALIDATION_LAYER_NAME@]
}

pub open spec fn device_extension_names() -> Seq<Seq<char>> {
    seq![SWAPCHAIN_EXTENSION_NAME@]
}

/// Whether `name` occurs in `available`.
fn contains_name(available: &Vec<String>, name: &String) -> (r: bool)
    ensures
        r == names_of(available@).contains(name@),
{
    let mut j: usize = 0;
    while j < available.len()
        invariant
            j <= available@.len(),
            forall|k: int| 0 <= k < j ==> #[trigger] available@[k]@ != name@,
        decreases available@.len() - j,
    {
        if available[j] == *name {
            assert(names_of(available@)[j as int] == name@);
            return true;
        }
        j = j + 1;
    }
    false
}

/// Whether every name in `required` occurs in `available`.
///
/// Only membership is asked, of a handful of names, so a scan of the list does
/// what a set of the required names with the available ones removed would,
/// and its result is stated exactly.
pub fn all_names_present(required: &Vec<String>, available: &Vec<String>) -> (r: bool)
    ensures
        r == names_present(names_of(required@), names_of(available@)),
{
    let mut i: usize = 0;
    while i < required.len()
        invariant
            i <= required@.len(),
            forall|k: int|
                0 <= k < i ==> #[trigger] names_of(available@).contains(names_of(required@)[k]),
        decreases required@.len() - i,
    {
        if !contains_name(available, &required[i]) {
            assert(names_of(required@)[i as int] == required@[i as int]@);
            return false;
        }
        assert(names_of(required@)[i as int] == required@[i as int]@);
        i = i + 1;
    }
    true
}

/// The validation layers turned on in checked builds.
pub fn validation_layers() -> (r: Vec<String>)
    ensures
        names_of(r@) == validation_layer_names(),
{
    let mut r: Vec<String> = Vec::new();
    r.push(VALIDATION_LAYER_NAME.to_owned());
    assert(names_of(r@) =~= validation_layer_names());
    r
}

/// The device extensions the renderer needs.
pub fn device_extensions() -> (r: Vec<String>)
    ensures
        names_of(r@) == device_extension_names(),
{
    let mut r: Vec<String> = Vec::new();
    r.push(SWAPCHAIN_EXTENSION_NAME.to_owned());
    assert(names_of(r@) =~= device_extension_names());
    r
}

/// Whether every validation layer is among the installed layers.
pub fn check_validation_layer_support(available_layers: &Vec<String>) -> (r: bool)
    ensures
        r == names_present(validation_layer_names(), names_of(available_layers@)),
{
    let required = validation_layers();
    all_names_present(&required, available_layers)
}

/// Whether every device extension the renderer needs is among those a device
/// offers.
pub fn check_device_extensions_support(available_extensions: &Vec<String>) -> (r: bool)
    ensures
        r == names_present(device_extension_names(), names_of(available_extensions@)),
{
    let required = device_extensions();
    all_names_present(&required, available_extensions)
}

/// What is known of one physical device when choosing among them.
pub struct DeviceCandidate {
    /// Its queue families, in its own order.
    pub queue_families: Vec<QueueFamilyInfo>,
    /// The names of the extensions it offers.
    pub extensions: Vec<String>,
    /// What it offers for presenting to the surface; asked only of a device
    /// that offers the needed extensions.
    pub swap_chain_support: Option<SwapChainSupportDetails>,
}

/// Whether a device can run the renderer: it has a graphics family and a
/// present family, offers the needed extensions, and offers at least one
/// surface format and one present mode.
pub open spec fn suitable(c: DeviceCandidate) -> bool {
    &&& families_suffice(c.queue_families@)
    &&& names_present(device_extension_names(), names_of(c.extensions@))
    &&& c.swap_chain_support is Some
    &&& c.swap_chain_support->0.adequate()
}

/// Whether a device can run the renderer.
pub fn is_device_suitable(candidate: &DeviceCandidate) -> (r: bool)
    requires
        candidate.queue_families@.len() <= u32::MAX + 1,
    ensures
        r == suitable(*candidate),
{
    let extensions_supported = check_device_extensions_support(&candidate.extensions);
    let mut swap_chain_adequate = false;
    if extensions_supported {
        match &candidate.swap_chain_support {
            Some(s) => {
                swap_chain_adequate = s.formats.len() > 0 && s.present_modes.len() > 0;
            },
            None => {},
        }
    }
    find_queue_families(&candidate.queue_families).is_complete() && extensions_supported
        && swap_chain_adequate
}

/// The index of the device to use: the first suitable one. Fails with
/// `NoDevice` where there is no device, and with `NoSuitableDevice` where none
/// is suitable.
pub fn pick_physical_device(candidates: &Vec<DeviceCandidate>) -> (r: Result<usize, RenderError>)
    requires
        forall|i: int|
            0 <= i < candidates@.len() ==> #[trigger] candidates@[i].queue_families@.len()
                <= u32::MAX + 1,
    ensures
        candidates@.len() == 0 ==> r == Err::<usize, RenderError>(RenderError::NoDevice),
        candidates@.len() > 0 && (forall|i: int|
            0 <= i < candidates@.len() ==> !suitable(#[trigger] candidates@[i])) ==> r == Err::<
            usize,
            RenderError,
        >(RenderError::NoSuitableDevice),
        r is Ok ==> r->Ok_0 < candidates@.len() && suitable(candidates@[r->Ok_0 as int])
            && forall|i: int| 0 <= i < r->Ok_0 ==> !suitable(#[trigger] candidates@[i]),
        (exists|i: int| 0 <= i < candidates@.len() && suitable(#[trigger] candidates@[i]))
            ==> r is Ok,
{
    if candidates.len() == 0 {
        return Err(RenderError::NoDevice);
    }
    let mut idx: usize = 0;
    while idx < candidates.len()
        invariant
            idx <= candidates@.len(),
            forall|i: int|
                0 <= i < candidates@.len() ==> #[trigger] candidates@[i].queue_families@.len()
                    <= u32::MAX + 1,
            forall|i: int| 0 <= i < idx ==> !suitable(#[trigger] candidates@[i]),
        decreases candidates@.len() - idx,
    {
        if is_device_suitable(&candidates[idx]) {
            return Ok(idx);
        }
        idx = idx + 1;
    }
    Err(RenderError::NoSuitableDevice)
}

} // verus!
