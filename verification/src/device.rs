//! Physical-device selection: queue-family search, required-extension
//! check, swapchain-support check, and the first-fit pick over the
//! enumeration order.

use vstd::prelude::*;
use crate::error::{DeviceError, SuitabilityReason};
use crate::swapchain::SurfaceFormat;

verus! {

/// What one queue family of a device can do, as queried from the API: the
/// graphics bit of its capability flags, and whether it can present to the
/// surface under consideration.
#[derive(Clone, Copy, Debug, PartialEq, Eq, Structural)]
pub struct QueueFamily {
    pub supports_graphics: bool,
    pub supports_present: bool,
}

/// The two resolved queue family indices. Valid only as a pair: both
/// capabilities must be found, though they may resolve to the same family.
#[derive(Clone, Copy, Debug, PartialEq, Eq, Structural)]
pub struct QueueFamilyIndices {
    pub graphics: u32,
    pub present: u32,
}

/// A read-only snapshot of one enumerated physical device, taken against a
/// fixed surface: its queue families, its supported extension names (as
/// byte strings), and the surface formats and present modes the
/// device/surface pairing exposes.
#[derive(Debug)]
pub struct PhysicalDeviceInfo {
    pub queue_families: Vec<QueueFamily>,
    pub extensions: Vec<Vec<u8>>,
    pub formats: Vec<SurfaceFormat>,
    pub present_modes: Vec<u32>,
}

/// The name of the swapchain device extension, as the bytes of
/// `"VK_KHR_swapchain"`.
pub open spec fn spec_swapchain_extension_name() -> Seq<u8> {
    seq![86u8, 75, 95, 75, 72, 82, 95, 115, 119, 97, 112, 99, 104, 97, 105, 110]
}

/// The fixed list of device extensions every selected device must support:
/// swapchain support alone.
pub open spec fn spec_required_extensions() -> Seq<Seq<u8>> {
    seq![spec_swapchain_extension_name()]
}

/// Builds the required-extension list.
pub fn required_device_extensions() -> (r: Vec<Vec<u8>>)
    ensures
        r@.len() == spec_required_extensions().len(),
        forall|i: int| 0 <= i < r@.len() ==> r@[i]@ == spec_required_extensions()[i],
{
    let name: Vec<u8> = vec![
        86u8, 75, 95, 75, 72, 82, 95, 115, 119, 97, 112, 99, 104, 97, 105, 110,
    ];
    proof {
        assert(name@ =~= spec_swapchain_extension_name());
    }
    let mut r: Vec<Vec<u8>> = Vec::new();
    r.push(name);
    r
}

/// Whether some name in `names` equals `name`, byte for byte.
pub open spec fn spec_contains_name(names: Seq<Vec<u8>>, name: Seq<u8>) -> bool {
    exists|i: int| 0 <= i < names.len() && names[i]@ == name
}

/// Whether the supported-extension set covers every required extension.
pub open spec fn spec_extensions_covered(supported: Seq<Vec<u8>>) -> bool {
    forall|i: int|
        0 <= i < spec_required_extensions().len() ==> spec_contains_name(
            supported,
            spec_required_extensions()[i],
        )
}

/// Byte-for-byte equality of two byte strings.
pub fn bytes_eq(a: &Vec<u8>, b: &Vec<u8>) -> (r: bool)
    ensures
        r == (a@ == b@),
{
    if a.len() != b.len() {
        return false;
    }
    let n = a.len();
    let mut i: usize = 0;
    while i < n
        invariant
            i <= n,
            n == a@.len(),
            n == b@.len(),
            forall|j: int| 0 <= j < i ==> a@[j] == b@[j],
        decreases n - i,
    {
        if a[i] != b[i] {
            return false;
        }
        i = i + 1;
    }
    proof {
        assert(a@ =~= b@);
    }
    true
}

/// Whether `names` holds a byte string equal to `name`.
pub fn contains_name(names: &Vec<Vec<u8>>, name: &Vec<u8>) -> (r: bool)
    ensures
        r == spec_contains_name(names@, name@),
{
    let n = names.len();
    let mut i: usize = 0;
    while i < n
        invariant
            i <= n,
            n == names@.len(),
            forall|j: int| 0 <= j < i ==> names@[j]@ != name@,
        decreases n - i,
    {
        if bytes_eq(&names[i], name) {
            return true;
        }
        i = i + 1;
    }
    false
}

/// Whether the device's supported extensions are a superset of the
/// required-extension list.
pub fn check_device_extensions(supported: &Vec<Vec<u8>>) -> (r: bool)
    ensures
        r == spec_extensions_covered(supported@),
{
    let required = required_device_extensions();
    let n = required.len();
    let mut i: usize = 0;
    while i < n
        invariant
            i <= n,
            n == required@.len(),
            n == spec_required_extensions().len(),
            forall|j: int| 0 <= j < n ==> required@[j]@ == spec_required_extensions()[j],
            forall|j: int| 0 <= j < i ==> spec_contains_name(supported@, spec_required_extensions()[j]),
        decreases n - i,
    {
        if !contains_name(supported, &required[i]) {
            proof {
                assert(!spec_contains_name(supported@, spec_required_extensions()[i as int]));
            }
            return false;
        }
        i = i + 1;
    }
    true
}

/// Whether some family in the list supports graphics submission.
pub open spec fn spec_has_graphics(families: Seq<QueueFamily>) -> bool {
    exists|i: int| 0 <= i < families.len() && families[i].supports_graphics
}

/// Whether some family in the list can present to the surface.
pub open spec fn spec_has_present(families: Seq<QueueFamily>) -> bool {
    exists|i: int| 0 <= i < families.len() && families[i].supports_present
}

/// Whether `ix` is the resolution the tie-break policy demands: for each
/// capability independently, the first family index supporting it.
pub open spec fn spec_indices_resolved(families: Seq<QueueFamily>, ix: QueueFamilyIndices) -> bool {
    &&& ix.graphics < families.len()
    &&& families[ix.graphics as int].supports_graphics
    &&& forall|j: int| 0 <= j < ix.graphics ==> !families[j].supports_graphics
    &&& ix.present < families.len()
    &&& families[ix.present as int].supports_present
    &&& forall|j: int| 0 <= j < ix.present ==> !families[j].supports_present
}

/// Scans the queue families for the first graphics-capable and the first
/// present-capable family. Succeeds exactly when both capabilities are
/// present somewhere in the list.
pub fn find_queue_families(families: &Vec<QueueFamily>) -> (r: Option<QueueFamilyIndices>)
    requires
        families@.len() <= u32::MAX,
    ensures
        r is Some <==> spec_has_graphics(families@) && spec_has_present(families@),
        r matches Some(ix) ==> spec_indices_resolved(families@, ix),
{
    let n = families.len();
    let mut graphics: Option<u32> = None;
    let mut present: Option<u32> = None;
    let mut i: usize = 0;
    while i < n
        invariant
            i <= n,
            n == families@.len(),
            n <= u32::MAX,
            graphics matches Some(g) ==> g < i && families@[g as int].supports_graphics
                && forall|j: int| 0 <= j < g ==> !(#[trigger] families@[j]).supports_graphics,
            graphics is None ==> forall|j: int|
                0 <= j < i ==> !(#[trigger] families@[j]).supports_graphics,
            present matches Some(p) ==> p < i && families@[p as int].supports_present
                && forall|j: int| 0 <= j < p ==> !(#[trigger] families@[j]).supports_present,
            present is None ==> forall|j: int|
                0 <= j < i ==> !(#[trigger] families@[j]).supports_present,
        decreases n - i,
    {
        let f = families[i];
        if f.supports_graphics && graphics.is_none() {
            graphics = Some(i as u32);
        }
        if f.supports_present && present.is_none() {
            present = Some(i as u32);
        }
        i = i + 1;
    }
    match (graphics, present) {
        (Some(g), Some(p)) => Some(QueueFamilyIndices { graphics: g, present: p }),
        _ => None,
    }
}

/// Whether a device snapshot passes every suitability check: both queue
/// capabilities, the required extensions, and at least one surface format
/// and one present mode.
pub open spec fn spec_suitable(dev: PhysicalDeviceInfo) -> bool {
    &&& spec_has_graphics(dev.queue_families@)
    &&& spec_has_present(dev.queue_families@)
    &&& spec_extensions_covered(dev.extensions@)
    &&& dev.formats@.len() > 0
    &&& dev.present_modes@.len() > 0
}

/// The reason the suitability check reports for an unsuitable device: the
/// first failing check, in the order the checks run.
pub open spec fn spec_rejection_reason(dev: PhysicalDeviceInfo) -> SuitabilityReason {
    if !spec_has_graphics(dev.queue_families@) {
        SuitabilityReason::NoGraphicsQueueFamily
    } else if !spec_has_present(dev.queue_families@) {
        SuitabilityReason::NoPresentQueueFamily
    } else if !spec_extensions_covered(dev.extensions@) {
        SuitabilityReason::MissingRequiredExtension
    } else if dev.formats@.len() == 0 {
        SuitabilityReason::NoSurfaceFormats
    } else {
        SuitabilityReason::NoPresentModes
    }
}

/// Runs the full suitability check on one device snapshot. Succeeds, with
/// the resolved queue family indices, exactly when the device is suitable;
/// an unsuitable device yields the first failing check as its diagnostic
/// reason.
pub fn check_physical_device(dev: &PhysicalDeviceInfo) -> (r: Result<
    QueueFamilyIndices,
    SuitabilityReason,
>)
    requires
        dev.queue_families@.len() <= u32::MAX,
    ensures
        r is Ok <==> spec_suitable(*dev),
        r matches Ok(ix) ==> spec_indices_resolved(dev.queue_families@, ix),
        r matches Err(reason) ==> reason == spec_rejection_reason(*dev),
{
    let indices = match find_queue_families(&dev.queue_families) {
        Some(ix) => ix,
        None => {
            if !has_graphics_family(&dev.queue_families) {
                return Err(SuitabilityReason::NoGraphicsQueueFamily);
            }
            return Err(SuitabilityReason::NoPresentQueueFamily);
        },
    };
    if !check_device_extensions(&dev.extensions) {
        return Err(SuitabilityReason::MissingRequiredExtension);
    }
    if dev.formats.len() == 0 {
        return Err(SuitabilityReason::NoSurfaceFormats);
    }
    if dev.present_modes.len() == 0 {
        return Err(SuitabilityReason::NoPresentModes);
    }
    Ok(indices)
}

/// Whether any family of the list supports graphics submission.
pub fn has_graphics_family(families: &Vec<QueueFamily>) -> (r: bool)
    ensures
        r == spec_has_graphics(families@),
{
    let n = families.len();
    let mut i: usize = 0;
    while i < n
        invariant
            i <= n,
            n == families@.len(),
            forall|j: int| 0 <= j < i ==> !families@[j].supports_graphics,
        decreases n - i,
    {
        if families[i].supports_graphics {
            return true;
        }
        i = i + 1;
    }
    false
}

/// The outcome of selection: the position of the chosen device in the
/// enumeration order, and its resolved queue family indices.
#[derive(Clone, Copy, Debug, PartialEq, Eq, Structural)]
pub struct SelectedDevice {
    pub index: usize,
    pub queue_families: QueueFamilyIndices,
}

/// Whether first-fit selection over `devices` chooses position `i`: the
/// device there is suitable and every device before it is not.
pub open spec fn spec_selects(devices: Seq<PhysicalDeviceInfo>, i: int) -> bool {
    &&& 0 <= i < devices.len()
    &&& spec_suitable(devices[i])
    &&& forall|j: int| 0 <= j < i ==> !spec_suitable(devices[j])
}

/// First-fit physical-device selection: walks the devices in enumeration
/// order and picks the first that passes every suitability check. Fails
/// exactly when no device passes, and that failure is the single fatal
/// aggregate of all the per-candidate rejections.
pub fn pick_physical_device(devices: &Vec<PhysicalDeviceInfo>) -> (r: Result<
    SelectedDevice,
    DeviceError,
>)
    requires
        forall|i: int|
            0 <= i < devices@.len() ==> (#[trigger] devices@[i]).queue_families@.len() <= u32::MAX,
    ensures
        r matches Ok(s) ==> spec_selects(devices@, s.index as int)
            && spec_indices_resolved(devices@[s.index as int].queue_families@, s.queue_families),
        r is Err <==> forall|i: int| 0 <= i < devices@.len() ==> !spec_suitable(devices@[i]),
        r matches Err(e) ==> e == DeviceError::NoSuitableDevice,
{
    let n = devices.len();
    let mut i: usize = 0;
    while i < n
        invariant
            i <= n,
            n == devices@.len(),
            forall|j: int|
                0 <= j < devices@.len() ==> (#[trigger] devices@[j]).queue_families@.len()
                    <= u32::MAX,
            forall|j: int| 0 <= j < i ==> !spec_suitable(devices@[j]),
        decreases n - i,
    {
        match check_physical_device(&devices[i]) {
            Ok(ix) => {
                return Ok(SelectedDevice { index: i, queue_families: ix });
            },
            Err(_) => {},
        }
        i = i + 1;
    }
    Err(DeviceError::NoSuitableDevice)
}

/// Runs the suitability check over every candidate, reporting per
/// candidate either acceptance or the first failing check. Rejections are
/// collected for diagnostics, not treated as fatal individually: selection
/// fails only once every candidate has been rejected.
pub fn candidate_reports(devices: &Vec<PhysicalDeviceInfo>) -> (r: Vec<Option<SuitabilityReason>>)
    requires
        forall|i: int|
            0 <= i < devices@.len() ==> (#[trigger] devices@[i]).queue_families@.len() <= u32::MAX,
    ensures
        r@.len() == devices@.len(),
        forall|i: int| 0 <= i < devices@.len() ==> ((#[trigger] r@[i]) is None <==> spec_suitable(
            devices@[i],
        )),
        forall|i: int|
            0 <= i < devices@.len() ==> ((#[trigger] r@[i]) matches Some(reason) ==> reason
                == spec_rejection_reason(devices@[i])),
{
    let n = devices.len();
    let mut r: Vec<Option<SuitabilityReason>> = Vec::new();
    let mut i: usize = 0;
    while i < n
        invariant
            i <= n,
            n == devices@.len(),
            r@.len() == i,
            forall|j: int|
                0 <= j < devices@.len() ==> (#[trigger] devices@[j]).queue_families@.len()
                    <= u32::MAX,
            forall|j: int| 0 <= j < i ==> ((#[trigger] r@[j]) is None <==> spec_suitable(
                devices@[j],
            )),
            forall|j: int|
                0 <= j < i ==> ((#[trigger] r@[j]) matches Some(reason) ==> reason
                    == spec_rejection_reason(devices@[j])),
        decreases n - i,
    {
        match check_physical_device(&devices[i]) {
            Ok(_) => r.push(None),
            Err(reason) => r.push(Some(reason)),
        }
        i = i + 1;
    }
    r
}

/// A device lacking a graphics-capable queue family is never suitable, so
/// first-fit selection never chooses it, wherever it stands in the
/// enumeration order.
pub proof fn lemma_selection_skips_graphicsless(devices: Seq<PhysicalDeviceInfo>, i: int)
    requires
        0 <= i < devices.len(),
        !spec_has_graphics(devices[i].queue_families@),
    ensures
        !spec_suitable(devices[i]),
        !spec_selects(devices, i),
{
}

/// One queue-create entry per distinct family index actually used: just
/// the graphics family when presentation resolves to the same family,
/// otherwise the graphics family followed by the present family.
pub fn queue_create_family_indices(ix: &QueueFamilyIndices) -> (r: Vec<u32>)
    ensures
        ix.graphics == ix.present ==> r@ =~= seq![ix.graphics],
        ix.graphics != ix.present ==> r@ =~= seq![ix.graphics, ix.present],
        forall|a: int, b: int| 0 <= a < b < r@.len() ==> r@[a] != r@[b],
        r@.contains(ix.graphics),
        r@.contains(ix.present),
{
    let mut r: Vec<u32> = Vec::new();
    r.push(ix.graphics);
    if ix.present != ix.graphics {
        r.push(ix.present);
    }
    proof {
        assert(r@.contains(ix.graphics)) by {
            assert(r@[0] == ix.graphics);
        }
        assert(r@.contains(ix.present)) by {
            if ix.present == ix.graphics {
                assert(r@[0] == ix.present);
            } else {
                assert(r@[1] == ix.present);
            }
        }
    }
    r
}

} // verus!
