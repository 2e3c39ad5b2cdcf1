//! Choosing the physical device and describing the logical device.

use vstd::prelude::*;
use crate::base::data::{
    PhysicalDeviceData, QueueFamily, QueueFamilyIndices, SwapchainSupport, has_required_families,
};
use crate::base::vk;
use crate::error::{Error, Stage};

verus! {

/// What was asked of one physical device: its handle, its queue families,
/// the names of its extensions and its support for the surface. The last two
/// hold the device's result code where the question failed.
#[derive(Debug, PartialEq, Eq)]
pub struct DeviceReport {
    pub device: u64,
    pub queue_families: Vec<QueueFamily>,
    pub extensions: Result<Vec<String>, i32>,
    pub swapchain_support: Result<SwapchainSupport, i32>,
}

/// The outcome of looking at one physical device.
#[derive(Clone, Copy, Debug, PartialEq, Eq, Structural)]
pub enum Verdict {
    /// The device passes all three checks.
    Eligible,
    /// The device lacks something; the next one is looked at.
    Rejected,
    /// A question that the checks depend on failed; selection stops.
    Failed { code: i32 },
}

/// Whether `name` is among the listed names.
pub open spec fn lists(extensions: Seq<String>, name: Seq<char>) -> bool {
    exists|m: int| 0 <= m < extensions.len() && (#[trigger] extensions[m])@ == name
}

/// Whether every required name is among the listed names.
pub open spec fn lists_all(extensions: Seq<String>, required: Seq<String>) -> bool {
    forall|k: int| 0 <= k < required.len() ==> lists(extensions, (#[trigger] required[k])@)
}

/// The checks in their order: queue families, then extensions, then surface
/// support. A later answer counts only if the earlier checks have passed.
pub open spec fn verdict(report: DeviceReport, required: Seq<String>) -> Verdict {
    if !has_required_families(report.queue_families@) {
        Verdict::Rejected
    } else {
        match report.extensions {
            Err(code) => Verdict::Failed { code },
            Ok(extensions) => if !lists_all(extensions@, required) {
                Verdict::Rejected
            } else {
                match report.swapchain_support {
                    Err(code) => Verdict::Failed { code },
                    Ok(support) => if support.is_adequate() {
                        Verdict::Eligible
                    } else {
                        Verdict::Rejected
                    },
                }
            },
        }
    }
}

/// Whether device `i` is the one at which selection stops: the first, in
/// the order of enumeration, that is not rejected.
pub open spec fn selection_stops_at(reports: Seq<DeviceReport>, required: Seq<String>, i: int) -> bool {
    &&& 0 <= i < reports.len()
    &&& verdict(reports[i], required) != Verdict::Rejected
    &&& forall|j: int| 0 <= j < i ==> verdict(#[trigger] reports[j], required) == Verdict::Rejected
}

/// Whether device `i` is the one that selection returns.
pub open spec fn selects(reports: Seq<DeviceReport>, required: Seq<String>, i: int) -> bool {
    selection_stops_at(reports, required, i) && verdict(reports[i], required) == Verdict::Eligible
}

/// What selection comes to.
pub open spec fn device_chosen(
    reports: Seq<DeviceReport>,
    required: Seq<String>,
    r: Result<PhysicalDeviceData, Error>,
) -> bool {
    match r {
        Ok(data) => exists|i: int| #[trigger]
            selects(reports, required, i) && data.device == reports[i].device && Ok::<
                SwapchainSupport,
                i32,
            >(data.swapchain_support) == reports[i].swapchain_support,
        Err(Error::Initialization { stage, code }) => {
            &&& stage == Stage::PhysicalDevice
            &&& exists|i: int| #[trigger]
                selection_stops_at(reports, required, i) && verdict(reports[i], required)
                    == (Verdict::Failed { code })
        },
        Err(Error::DeviceSelection) => forall|i: int|
            0 <= i < reports.len() ==> verdict(#[trigger] reports[i], required)
                == Verdict::Rejected,
        Err(_) => false,
    }
}

/// Whether the reported lists are short enough for their indices to be
/// family indices.
pub open spec fn families_countable(reports: Seq<DeviceReport>) -> bool {
    forall|i: int| 0 <= i < reports.len() ==> (#[trigger] reports[i]).queue_families@.len() <= u32::MAX
}

fn contains_name(extensions: &Vec<String>, name: &String) -> (r: bool)
    ensures
        r == lists(extensions@, name@),
{
    let mut m: usize = 0;
    while m < extensions.len()
        invariant
            m <= extensions@.len(),
            forall|j: int| 0 <= j < m ==> (#[trigger] extensions@[j])@ != name@,
        decreases extensions@.len() - m,
    {
        if extensions[m] == *name {
            return true;
        }
        m += 1;
    }
    false
}

fn contains_all(extensions: &Vec<String>, required: &Vec<String>) -> (r: bool)
    ensures
        r == lists_all(extensions@, required@),
{
    let mut k: usize = 0;
    while k < required.len()
        invariant
            k <= required@.len(),
            forall|j: int| 0 <= j < k ==> lists(extensions@, (#[trigger] required@[j])@),
        decreases required@.len() - k,
    {
        if !contains_name(extensions, &required[k]) {
            return false;
        }
        k += 1;
    }
    true
}

/// Looks at one device.
pub fn evaluate(report: &DeviceReport, required: &Vec<String>) -> (r: Verdict)
    requires
        report.queue_families@.len() <= u32::MAX,
    ensures
        r == verdict(*report, required@),
{
    if QueueFamilyIndices::get(&report.queue_families).is_err() {
        return Verdict::Rejected;
    }
    match &report.extensions {
        Err(code) => Verdict::Failed { code: *code },
        Ok(extensions) => {
            if !contains_all(extensions, required) {
                return Verdict::Rejected;
            }
            match &report.swapchain_support {
                Err(code) => Verdict::Failed { code: *code },
                Ok(support) => {
                    if support.is_adequate() {
                        Verdict::Eligible
                    } else {
                        Verdict::Rejected
                    }
                },
            }
        },
    }
}

/// Returns the first device, in the order of enumeration, that has the
/// queue families, the extensions and the surface support that rendering
/// needs.
///
/// A device that lacks one of them is passed over. A failed question about a
/// device that has passed the checks before it ends the selection with the
/// device's code. If every device is passed over, the result is
/// `DeviceSelection`.
pub fn choose_device(reports: Vec<DeviceReport>, required: &Vec<String>) -> (r: Result<
    PhysicalDeviceData,
    Error,
>)
    requires
        families_countable(reports@),
    ensures
        device_chosen(reports@, required@, r),
        r is Ok <==> exists|i: int| selects(reports@, required@, i),
        r matches Ok(data) ==> data.swapchain_support.is_adequate(),
{
    let mut remaining: Vec<DeviceReport> = reports;
    let mut i: usize = 0;
    while i < remaining.len()
        invariant
            remaining@ == reports@,
            families_countable(reports@),
            i <= reports@.len(),
            forall|j: int|
                0 <= j < i ==> verdict(#[trigger] reports@[j], required@) == Verdict::Rejected,
        decreases reports@.len() - i,
    {
        match evaluate(&remaining[i], required) {
            Verdict::Rejected => {},
            Verdict::Failed { code } => {
                assert(selection_stops_at(reports@, required@, i as int));
                assert forall|k: int| !selects(reports@, required@, k) by {
                    if selects(reports@, required@, k) {
                        lemma_selection_stops_once(reports@, required@, i as int, k);
                    }
                }
                return Err(Error::Initialization { stage: Stage::PhysicalDevice, code });
            },
            Verdict::Eligible => {
                assert(selects(reports@, required@, i as int));
                let report: DeviceReport = remaining.remove(i);
                match report.swapchain_support {
                    Ok(swapchain_support) => {
                        return Ok(PhysicalDeviceData { device: report.device, swapchain_support });
                    },
                    Err(_) => {
                        assert(false);
                        return Err(Error::DeviceSelection);
                    },
                }
            },
        }
        i += 1;
    }
    Err(Error::DeviceSelection)
}

/// Selection stops at one device at most.
pub proof fn lemma_selection_stops_once(
    reports: Seq<DeviceReport>,
    required: Seq<String>,
    i: int,
    j: int,
)
    requires
        selection_stops_at(reports, required, i),
        selection_stops_at(reports, required, j),
    ensures
        i == j,
{
}

/// A device that lacks a graphics family or a family that presents to the
/// surface is rejected, and so is never the one that selection returns.
pub proof fn lemma_device_without_queue_families_is_rejected(
    reports: Seq<DeviceReport>,
    required: Seq<String>,
    i: int,
)
    requires
        0 <= i < reports.len(),
        !has_required_families(reports[i].queue_families@),
    ensures
        verdict(reports[i], required) == Verdict::Rejected,
        !selects(reports, required, i),
{
}

/// A device whose extensions miss a required one is rejected, whatever its
/// queue families are, and so is never the one that selection returns.
pub proof fn lemma_device_without_extension_is_rejected(
    reports: Seq<DeviceReport>,
    required: Seq<String>,
    i: int,
)
    requires
        0 <= i < reports.len(),
        reports[i].extensions matches Ok(extensions) && !lists_all(extensions@, required),
    ensures
        verdict(reports[i], required) == Verdict::Rejected,
        !selects(reports, required, i),
{
}

/// A device that selection returns has passed all three checks, and every
/// device enumerated before it has been rejected.
pub proof fn lemma_selected_device_is_first_eligible(
    reports: Seq<DeviceReport>,
    required: Seq<String>,
    i: int,
)
    requires
        selects(reports, required, i),
    ensures
        has_required_families(reports[i].queue_families@),
        reports[i].extensions matches Ok(extensions) && lists_all(extensions@, required),
        reports[i].swapchain_support matches Ok(support) && support.is_adequate(),
        forall|j: int| selects(reports, required, j) ==> j == i,
{
    assert forall|j: int| selects(reports, required, j) implies j == i by {
        lemma_selection_stops_once(reports, required, i, j);
    }
}

/// A queue of the logical device. The priority is a whole number; the device
/// takes it as a floating-point number.
#[derive(Clone, Copy, Debug, PartialEq, Eq, Structural)]
pub struct DeviceQueueCreateInfo {
    pub queue_family_index: u32,
    pub queue_count: u32,
    pub queue_priority: u32,
}

/// The logical device that is asked for.
#[derive(Debug, PartialEq, Eq)]
pub struct DeviceCreateInfo {
    pub physical_device: u64,
    pub queues: Vec<DeviceQueueCreateInfo>,
    pub extensions: Vec<String>,
    /// Whether any optional device feature is switched on.
    pub optional_features: bool,
}

/// One queue of priority 1 from the given family.
pub open spec fn single_queue(queue_family_index: u32) -> DeviceQueueCreateInfo {
    DeviceQueueCreateInfo { queue_family_index, queue_count: 1, queue_priority: 1 }
}

/// One queue for each family that differs: the graphics family, and the
/// present family unless it is the same.
pub open spec fn queues_for(indices: QueueFamilyIndices) -> Seq<DeviceQueueCreateInfo> {
    if indices.graphics == indices.present {
        seq![single_queue(indices.graphics)]
    } else {
        seq![single_queue(indices.graphics), single_queue(indices.present)]
    }
}

/// The names of the device extensions that rendering needs: swapchains, and
/// on a portability implementation the portability subset.
pub open spec fn required_device_extensions(portability: bool) -> Seq<Seq<char>> {
    if portability {
        seq!["VK_KHR_swapchain"@, "VK_KHR_portability_subset"@]
    } else {
        seq!["VK_KHR_swapchain"@]
    }
}

/// The names of a list of strings.
pub open spec fn names_of(strings: Seq<String>) -> Seq<Seq<char>> {
    strings.map_values(|s: String| s@)
}

/// The device extensions that are required and enabled.
pub fn device_extension_names(portability: bool) -> (r: Vec<String>)
    ensures
        names_of(r@) == required_device_extensions(portability),
{
    let mut names: Vec<String> = Vec::new();
    names.push(vk::swapchain_extension_name());
    if portability {
        names.push(vk::portability_subset_extension_name());
    }
    names
}

/// Describes the logical device: one queue of priority 1 per distinct queue
/// family, the required extensions, no optional feature.
pub fn create_logical_device(
    physical_device_data: &PhysicalDeviceData,
    queue_family_indices: &QueueFamilyIndices,
    device_extension_names: Vec<String>,
) -> (r: DeviceCreateInfo)
    ensures
        r.physical_device == physical_device_data.device,
        r.queues@ == queues_for(*queue_family_indices),
        r.extensions == device_extension_names,
        !r.optional_features,
{
    let mut queues: Vec<DeviceQueueCreateInfo> = Vec::new();
    queues.push(
        DeviceQueueCreateInfo {
            queue_family_index: queue_family_indices.graphics,
            queue_count: 1,
            queue_priority: 1,
        },
    );
    if queue_family_indices.present != queue_family_indices.graphics {
        queues.push(
            DeviceQueueCreateInfo {
                queue_family_index: queue_family_indices.present,
                queue_count: 1,
                queue_priority: 1,
            },
        );
    }
    DeviceCreateInfo {
        physical_device: physical_device_data.device,
        queues,
        extensions: device_extension_names,
        optional_features: false,
    }
}

} // verus!
