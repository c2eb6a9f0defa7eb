//! Adapters: what is known of one, how it is checked against the profiles,
//! and how the adapter to use is chosen among those found.
use vstd::prelude::*;
use wgpu::Features;

use crate::error::{RendererInitializationError, RendererProfile};
use crate::features::{
    check_features, feature_set, features_suffice, granted_set, lemma_gpu_features_imply_cpu_features,
    missing_set,
};
use crate::limits::{
    check_limits, granted_limits, lemma_gpu_limits_imply_cpu_limits, limits_outcome, limits_suffice,
    Limits,
};

verus! {

/// Kind of a GPU device, as `wgpu::DeviceType` has them.
#[derive(Clone, Copy, Debug, PartialEq, Eq, Structural, Hash)]
pub enum DeviceType {
    /// Other or unknown.
    Other,
    /// Integrated GPU with shared CPU/GPU memory.
    IntegratedGpu,
    /// Discrete GPU with separate CPU/GPU memory.
    DiscreteGpu,
    /// Virtual / hosted.
    VirtualGpu,
    /// CPU / software rendering.
    Cpu,
}

/// Graphics API backend, as `wgpu::Backend` has them.
#[derive(Clone, Copy, Debug, PartialEq, Eq, Structural, Hash)]
pub enum Backend {
    /// Dummy backend for testing.
    Noop,
    /// Vulkan.
    Vulkan,
    /// Metal.
    Metal,
    /// Direct3D 12.
    Dx12,
    /// OpenGL / OpenGL ES / WebGL2.
    Gl,
    /// WebGPU in the browser.
    BrowserWebGpu,
}

/// Set of common GPU vendors.
#[derive(Clone, Debug, PartialEq, Eq, Structural)]
pub enum Vendor {
    Nv,
    Amd,
    Intel,
    Microsoft,
    Arm,
    Broadcom,
    Qualcomm,
    /// Don't recognize this vendor. This is the given PCI id.
    Unknown(usize),
}

/// What an adapter reports about itself (the parts of `wgpu::AdapterInfo`
/// that the setup reads).
#[derive(Clone, Debug, PartialEq, Eq)]
pub struct AdapterInfo {
    /// Adapter name.
    pub name: String,
    /// PCI id of the vendor.
    pub vendor: u32,
    /// PCI id of the adapter.
    pub device: u32,
    /// Type of device.
    pub device_type: DeviceType,
    /// Backend used for the device.
    pub backend: Backend,
}

/// Information about an adapter. Includes named PCI IDs for vendors.
#[derive(Clone, Debug, PartialEq, Eq)]
pub struct ExtendedAdapterInfo {
    /// Adapter name
    pub name: String,
    /// Vendor/brand of adapter.
    pub vendor: Vendor,
    /// PCI id of the adapter.
    pub device: usize,
    /// Type of device.
    pub device_type: DeviceType,
    /// Backend used for device
    pub backend: Backend,
}

/// The vendor that a PCI vendor id names.
pub open spec fn vendor_of(id: u32) -> Vendor {
    if id == 0x1002 {
        Vendor::Amd
    } else if id == 0x10DE {
        Vendor::Nv
    } else if id == 0x13B5 {
        Vendor::Arm
    } else if id == 0x1414 {
        Vendor::Microsoft
    } else if id == 0x14E4 {
        Vendor::Broadcom
    } else if id == 0x5143 {
        Vendor::Qualcomm
    } else if id == 0x8086 {
        Vendor::Intel
    } else {
        Vendor::Unknown(id as usize)
    }
}

/// The extended information of an adapter: its vendor named, the rest as reported.
pub open spec fn extended_info(info: AdapterInfo) -> ExtendedAdapterInfo {
    ExtendedAdapterInfo {
        name: info.name,
        vendor: vendor_of(info.vendor),
        device: info.device as usize,
        device_type: info.device_type,
        backend: info.backend,
    }
}

impl From<AdapterInfo> for ExtendedAdapterInfo {
    fn from(info: AdapterInfo) -> (r: Self) {
        let vendor = match info.vendor {
            0x1002 => Vendor::Amd,
            0x10DE => Vendor::Nv,
            0x13B5 => Vendor::Arm,
            0x1414 => Vendor::Microsoft,
            0x14E4 => Vendor::Broadcom,
            0x5143 => Vendor::Qualcomm,
            0x8086 => Vendor::Intel,
            v => Vendor::Unknown(v as usize),
        };
        ExtendedAdapterInfo {
            name: info.name,
            vendor,
            device: info.device as usize,
            device_type: info.device_type,
            backend: info.backend,
        }
    }
}

impl vstd::std_specs::convert::FromSpecImpl<AdapterInfo> for ExtendedAdapterInfo {
    open spec fn obeys_from_spec() -> bool {
        true
    }

    open spec fn from_spec(info: AdapterInfo) -> Self {
        extended_info(info)
    }
}

/// Validated set of features and limits for a given `T`.
pub struct PotentialAdapter<T> {
    pub inner: T,
    pub info: ExtendedAdapterInfo,
    pub features: Features,
    pub limits: Limits,
    pub profile: RendererProfile,
}

/// Whether a device with these features and limits can run the GPU-driven profile.
pub open spec fn gpu_driven_possible(features: Set<int>, limits: Limits) -> bool {
    features_suffice(RendererProfile::GpuDriven, features) && limits_suffice(
        RendererProfile::GpuDriven,
        limits,
    )
}

/// The profile an adapter is tried with: CPU-driven when the GPU-driven
/// profile is impossible or the CPU-driven one is asked for, unless the
/// GPU-driven one is asked for; GPU-driven otherwise.
pub open spec fn chosen_profile(desired: Option<RendererProfile>, gpu_possible: bool) -> RendererProfile {
    if (!gpu_possible || desired == Some(RendererProfile::CpuDriven)) && desired != Some(
        RendererProfile::GpuDriven,
    ) {
        RendererProfile::CpuDriven
    } else {
        RendererProfile::GpuDriven
    }
}

impl<T> PotentialAdapter<T> {
    /// Checks an adapter against the GPU-driven profile, and falls back to
    /// the CPU-driven one where that fails (or is asked for), unless the
    /// GPU-driven profile is asked for.
    pub fn new(
        inner: T,
        inner_info: AdapterInfo,
        inner_limits: Limits,
        inner_features: Features,
        desired_profile: Option<RendererProfile>,
    ) -> (r: Result<Self, RendererInitializationError>)
        ensures
            ({
                let fs = feature_set(inner_features);
                let profile = chosen_profile(
                    desired_profile,
                    gpu_driven_possible(fs, inner_limits),
                );
                &&& r is Ok <==> features_suffice(profile, fs) && limits_suffice(
                    profile,
                    inner_limits,
                )
                &&& r matches Ok(a) ==> {
                    &&& a.inner == inner
                    &&& a.info == extended_info(inner_info)
                    &&& feature_set(a.features) == granted_set(profile, fs)
                    &&& a.limits == granted_limits(inner_limits)
                    &&& a.profile == profile
                }
                &&& desired_profile is None && features_suffice(RendererProfile::GpuDriven, fs)
                    && limits_suffice(RendererProfile::GpuDriven, inner_limits) ==> (r matches Ok(
                    a,
                ) && a.profile == RendererProfile::GpuDriven)
                &&& desired_profile is None && !(features_suffice(RendererProfile::GpuDriven, fs)
                    && limits_suffice(RendererProfile::GpuDriven, inner_limits)) ==> ((r is Ok
                    <==> features_suffice(RendererProfile::CpuDriven, fs) && limits_suffice(
                    RendererProfile::CpuDriven,
                    inner_limits,
                )) && (r matches Ok(a) ==> a.profile == RendererProfile::CpuDriven))
                &&& desired_profile matches Some(p) ==> ((r is Ok <==> features_suffice(p, fs)
                    && limits_suffice(p, inner_limits)) && (r matches Ok(a) ==> a.profile == p))
                &&& r matches Err(e) ==> if features_suffice(profile, fs) {
                    e == limits_outcome(profile, inner_limits)->Err_0
                } else {
                    e matches RendererInitializationError::MissingDeviceFeatures { features }
                        && feature_set(features) == missing_set(profile, fs)
                }
            }),
    {
        let info = ExtendedAdapterInfo::from(inner_info);

        let mut features = check_features(RendererProfile::GpuDriven, inner_features);
        let mut limits = check_limits(RendererProfile::GpuDriven, &inner_limits);
        let mut profile = RendererProfile::GpuDriven;

        let wants_cpu = match desired_profile {
            Some(RendererProfile::CpuDriven) => true,
            _ => false,
        };
        let wants_gpu = match desired_profile {
            Some(RendererProfile::GpuDriven) => true,
            _ => false,
        };
        if (features.is_err() || limits.is_err() || wants_cpu) && !wants_gpu {
            features = check_features(RendererProfile::CpuDriven, inner_features);
            limits = check_limits(RendererProfile::CpuDriven, &inner_limits);
            profile = RendererProfile::CpuDriven;
        }

        let features = match features {
            Ok(f) => f,
            Err(e) => return Err(e),
        };
        let limits = match limits {
            Ok(l) => l,
            Err(e) => return Err(e),
        };
        Ok(PotentialAdapter { inner, info, features, limits, profile })
    }
}

/// Law: an explicitly asked-for profile is the one an adapter is tried with.
pub proof fn lemma_desired_profile_is_used(desired: RendererProfile, gpu_possible: bool)
    ensures
        chosen_profile(Some(desired), gpu_possible) == desired,
{
}

/// Law: with no profile asked for, an adapter is accepted exactly when it
/// meets the requirements of the CPU-driven profile.
pub proof fn lemma_no_preference_accepts_cpu_capable(features: Set<int>, limits: Limits)
    ensures
        ({
            let profile = chosen_profile(None, gpu_driven_possible(features, limits));
            (features_suffice(profile, features) && limits_suffice(profile, limits)) <==> (
            features_suffice(RendererProfile::CpuDriven, features) && limits_suffice(
                RendererProfile::CpuDriven,
                limits,
            ))
        }),
{
    if gpu_driven_possible(features, limits) {
        lemma_gpu_limits_imply_cpu_limits(limits);
        lemma_gpu_features_imply_cpu_features(features);
    }
}

/// The lower-case form of a string, as `str::to_lowercase` computes it.
pub uninterp spec fn lowercase(s: Seq<char>) -> Seq<char>;

/// `str::to_lowercase`: a function of the string alone (Unicode's fixed
/// case tables); its result is named, not stated.
#[verifier::external_body]
fn to_lowercase(s: &str) -> (r: String)
    ensures
        r@ == lowercase(s@),
{
    s.to_lowercase()
}

/// Whether `needle` occurs in `haystack` as a contiguous run of characters.
pub open spec fn contains_substring(haystack: Seq<char>, needle: Seq<char>) -> bool {
    exists|i: int|
        0 <= i && i + needle.len() <= haystack.len() && #[trigger] haystack.subrange(
            i,
            i + needle.len(),
        ) == needle
}

/// The characters of a string.
fn chars_of(s: &str) -> (v: Vec<char>)
    ensures
        v@ == s@,
{
    let n = s.unicode_len();
    let mut v: Vec<char> = Vec::new();
    let mut i: usize = 0;
    while i < n
        invariant
            n == s@.len(),
            i <= n,
            v@ == s@.subrange(0, i as int),
        decreases n - i,
    {
        v.push(s.get_char(i));
        i = i + 1;
        assert(v@ =~= s@.subrange(0, i as int));
    }
    assert(v@ =~= s@);
    v
}

/// Whether `needle` occurs in `haystack` (what `str::contains` answers for a
/// string pattern).
pub fn str_contains(haystack: &str, needle: &str) -> (r: bool)
    ensures
        r == contains_substring(haystack@, needle@),
{
    let h = chars_of(haystack);
    let n = chars_of(needle);
    if n.len() > h.len() {
        return false;
    }
    let last = h.len() - n.len();
    let mut i: usize = 0;
    loop
        invariant
            h@ == haystack@,
            n@ == needle@,
            last == h@.len() - n@.len(),
            h@.len() <= usize::MAX,
            i <= last,
            forall|k: int| 0 <= k < i ==> #[trigger] h@.subrange(k, k + n@.len()) != n@,
        decreases last - i,
    {
        let mut j: usize = 0;
        let mut same = true;
        while j < n.len() && same
            invariant
                h@ == haystack@,
                n@ == needle@,
                last == h@.len() - n@.len(),
                i <= last,
                i + n@.len() <= h@.len() <= usize::MAX,
                j <= n@.len(),
                same <==> forall|m: int| 0 <= m < j ==> h@[i + m] == n@[m],
            decreases n@.len() - j,
        {
            if h[i + j] != n[j] {
                same = false;
            }
            j = j + 1;
        }
        if same {
            assert(h@.subrange(i as int, i + n@.len()) =~= n@);
            return true;
        }
        proof {
            let m = choose|m: int| 0 <= m < j && h@[i + m] != n@[m];
            assert(h@.subrange(i as int, i + n@.len())[m] != n@[m]);
        }
        if i == last {
            return false;
        }
        i = i + 1;
    }
}

/// Whether a checked adapter is the one the caller wants: with no device
/// name given, any adapter is; with a name, a usable adapter whose
/// lower-cased name contains it.
pub fn adapter_is_desired<T>(
    potential: &Result<PotentialAdapter<T>, RendererInitializationError>,
    desired_device: &Option<String>,
) -> (r: bool)
    ensures
        r == match desired_device {
            None => true,
            Some(d) => match potential {
                Ok(p) => contains_substring(lowercase(p.info.name@), d@),
                Err(_) => false,
            },
        },
{
    match desired_device {
        Some(d) => match potential {
            Ok(p) => {
                let lower = to_lowercase(p.info.name.as_str());
                str_contains(lower.as_str(), d.as_str())
            },
            Err(_) => false,
        },
        None => true,
    }
}

/// Preference of a device type: lower is better.
pub open spec fn device_type_rank_spec(t: DeviceType) -> u8 {
    match t {
        DeviceType::DiscreteGpu => 0,
        DeviceType::IntegratedGpu => 1,
        DeviceType::VirtualGpu => 2,
        DeviceType::Cpu => 3,
        DeviceType::Other => 4,
    }
}

/// Preference of a device type: discrete, integrated, virtual, CPU, other.
pub fn device_type_rank(t: DeviceType) -> (r: u8)
    ensures
        r == device_type_rank_spec(t),
{
    match t {
        DeviceType::DiscreteGpu => 0,
        DeviceType::IntegratedGpu => 1,
        DeviceType::VirtualGpu => 2,
        DeviceType::Cpu => 3,
        DeviceType::Other => 4,
    }
}

/// The backends tried, in order of preference.
pub fn default_backend_order() -> (r: Vec<Backend>)
    ensures
        r@ == seq![Backend::Vulkan, Backend::Metal, Backend::Dx12, Backend::Gl],
{
    let mut r: Vec<Backend> = Vec::new();
    r.push(Backend::Vulkan);
    r.push(Backend::Metal);
    r.push(Backend::Dx12);
    r.push(Backend::Gl);
    assert(r@ =~= seq![Backend::Vulkan, Backend::Metal, Backend::Dx12, Backend::Gl]);
    r
}

/// Whether `backend` may be used when `desired` is asked for.
pub open spec fn backend_allowed(desired: Option<Backend>, backend: Backend) -> bool {
    match desired {
        Some(d) => d == backend,
        None => true,
    }
}

/// Whether backend `b` of `order` is allowed and has a usable adapter;
/// `found[b]` lists the device types of its usable adapters, in the order
/// they were enumerated (a backend with no entry has none).
pub open spec fn backend_has_candidate(
    order: Seq<Backend>,
    desired: Option<Backend>,
    found: Seq<Seq<DeviceType>>,
    b: int,
) -> bool {
    &&& 0 <= b < order.len()
    &&& b < found.len()
    &&& backend_allowed(desired, order[b])
    &&& found[b].len() > 0
}

/// Whether `a` is the first adapter of the best device type in `types`
/// (the first after a stable sort by preference).
pub open spec fn is_best_adapter(types: Seq<DeviceType>, a: int) -> bool {
    &&& 0 <= a < types.len()
    &&& forall|j: int|
        0 <= j < types.len() ==> device_type_rank_spec(types[a]) <= device_type_rank_spec(
            #[trigger] types[j],
        )
    &&& forall|j: int|
        0 <= j < a ==> device_type_rank_spec(types[a]) < device_type_rank_spec(
            #[trigger] types[j],
        )
}

/// The device types of each backend's usable adapters, as sequences.
pub open spec fn found_view(found: Seq<Vec<DeviceType>>) -> Seq<Seq<DeviceType>> {
    found.map_values(|v: Vec<DeviceType>| v@)
}

/// The position, among the given device types, of the first one of the best type.
fn best_adapter(types: &Vec<DeviceType>) -> (a: usize)
    requires
        types.len() > 0,
    ensures
        is_best_adapter(types@, a as int),
{
    let mut best: usize = 0;
    let mut best_rank = device_type_rank(types[0]);
    let mut j: usize = 1;
    while j < types.len()
        invariant
            0 < j <= types.len(),
            best < j,
            best_rank == device_type_rank_spec(types@[best as int]),
            forall|k: int|
                0 <= k < j ==> best_rank <= device_type_rank_spec(#[trigger] types@[k]),
            forall|k: int|
                0 <= k < best ==> best_rank < device_type_rank_spec(#[trigger] types@[k]),
        decreases types.len() - j,
    {
        let rank = device_type_rank(types[j]);
        if rank < best_rank {
            best = j;
            best_rank = rank;
        }
        j = j + 1;
    }
    best
}

/// Chooses the adapter to use: the first backend of `order` that is allowed
/// by `desired_backend` and has a usable adapter, and in it the first
/// adapter of the best device type. `found[b]` lists the device types of the
/// usable adapters of backend `order[b]`, in the order they were enumerated.
/// Returns the backend's position in `order` and the adapter's in its list.
pub fn choose_adapter(
    order: &Vec<Backend>,
    desired_backend: Option<Backend>,
    found: &Vec<Vec<DeviceType>>,
) -> (r: Option<(usize, usize)>)
    ensures
        r matches Some((b, a)) ==> {
            &&& backend_has_candidate(order@, desired_backend, found_view(found@), b as int)
            &&& forall|c: int|
                0 <= c < b ==> !backend_has_candidate(
                    order@,
                    desired_backend,
                    found_view(found@),
                    c,
                )
            &&& is_best_adapter(found@[b as int]@, a as int)
            &&& a < found@[b as int]@.len()
            &&& forall|j: int|
                0 <= j < found@[b as int]@.len() ==> device_type_rank_spec(
                    found@[b as int]@[a as int],
                ) <= device_type_rank_spec(#[trigger] found@[b as int]@[j])
            &&& forall|j: int|
                0 <= j < a ==> device_type_rank_spec(found@[b as int]@[a as int])
                    < device_type_rank_spec(#[trigger] found@[b as int]@[j])
            &&& b < found@.len() && found@[b as int]@.len() > 0 && match desired_backend {
                Some(d) => d == order@[b as int],
                None => true,
            }
        },
        r is None <==> forall|b: int|
            0 <= b < order@.len() ==> !backend_has_candidate(
                order@,
                desired_backend,
                found_view(found@),
                b,
            ),
{
    let ghost fv = found_view(found@);
    let mut b: usize = 0;
    while b < order.len()
        invariant
            b <= order@.len(),
            fv == found_view(found@),
            forall|c: int| 0 <= c < b ==> !backend_has_candidate(order@, desired_backend, fv, c),
        decreases order@.len() - b,
    {
        let allowed = match desired_backend {
            Some(d) => d == order[b],
            None => true,
        };
        if allowed && b < found.len() && found[b].len() > 0 {
            let a = best_adapter(&found[b]);
            assert(fv[b as int] == found@[b as int]@);
            assert(backend_has_candidate(order@, desired_backend, fv, b as int));
            return Some((b, a));
        }
        proof {
            if b < found@.len() {
                assert(fv[b as int] == found@[b as int]@);
            }
        }
        b = b + 1;
    }
    None
}

/// Law: the profile an adapter is tried with. With no profile asked for, it
/// is the GPU-driven one exactly when the adapter's features and limits both
/// meet the GPU-driven profile, else the CPU-driven one; an asked-for profile
/// is always the one tried.
pub proof fn lemma_profile_choice(
    desired: Option<RendererProfile>,
    features: Set<int>,
    limits: Limits,
)
    ensures
        desired is None ==> chosen_profile(desired, gpu_driven_possible(features, limits)) == if
            features_suffice(RendererProfile::GpuDriven, features) && limits_suffice(
                RendererProfile::GpuDriven,
                limits,
            ) {
            RendererProfile::GpuDriven
        } else {
            RendererProfile::CpuDriven
        },
        desired matches Some(p) ==> chosen_profile(desired, gpu_driven_possible(features, limits))
            == p,
{
}

/// Law: how an adapter's vendor is named. Exactly the ids 0x1002 (AMD),
/// 0x10DE (NVIDIA), 0x13B5 (Arm), 0x1414 (Microsoft), 0x14E4 (Broadcom),
/// 0x5143 (Qualcomm) and 0x8086 (Intel) are named; every other id `v` gives
/// `Unknown(v)`. The other fields are copied unchanged.
pub proof fn lemma_vendor_naming(info: AdapterInfo)
    ensures
        ({
            let ext = extended_info(info);
            let id = info.vendor;
            &&& (ext.vendor == Vendor::Amd) <==> id == 0x1002
            &&& (ext.vendor == Vendor::Nv) <==> id == 0x10DE
            &&& (ext.vendor == Vendor::Arm) <==> id == 0x13B5
            &&& (ext.vendor == Vendor::Microsoft) <==> id == 0x1414
            &&& (ext.vendor == Vendor::Broadcom) <==> id == 0x14E4
            &&& (ext.vendor == Vendor::Qualcomm) <==> id == 0x5143
            &&& (ext.vendor == Vendor::Intel) <==> id == 0x8086
            &&& (id != 0x1002 && id != 0x10DE && id != 0x13B5 && id != 0x1414 && id != 0x14E4
                && id != 0x5143 && id != 0x8086) ==> ext.vendor == Vendor::Unknown(id as usize)
            &&& ext.name == info.name
            &&& ext.device == info.device as usize
            &&& ext.device_type == info.device_type
            &&& ext.backend == info.backend
        }),
{
}

/// Law: the preference among device types: discrete before integrated
/// before virtual before CPU before other.
pub proof fn lemma_device_type_preference()
    ensures
        device_type_rank_spec(DeviceType::DiscreteGpu) < device_type_rank_spec(
            DeviceType::IntegratedGpu,
        ),
        device_type_rank_spec(DeviceType::IntegratedGpu) < device_type_rank_spec(
            DeviceType::VirtualGpu,
        ),
        device_type_rank_spec(DeviceType::VirtualGpu) < device_type_rank_spec(DeviceType::Cpu),
        device_type_rank_spec(DeviceType::Cpu) < device_type_rank_spec(DeviceType::Other),
{
}

/// Law: `needle` occurs in `haystack` exactly when `haystack` is some
/// string, then `needle`, then some string.
pub proof fn lemma_contains_substring_splits(haystack: Seq<char>, needle: Seq<char>)
    ensures
        contains_substring(haystack, needle) <==> exists|before: Seq<char>, after: Seq<char>|
            haystack == before + needle + after,
{
    if contains_substring(haystack, needle) {
        let i = choose|i: int|
            0 <= i && i + needle.len() <= haystack.len() && #[trigger] haystack.subrange(
                i,
                i + needle.len(),
            ) == needle;
        let before = haystack.subrange(0, i);
        let after = haystack.subrange(i + needle.len(), haystack.len() as int);
        assert(haystack =~= before + needle + after);
    }
    if exists|before: Seq<char>, after: Seq<char>| haystack == before + needle + after {
        let (before, after) = choose|before: Seq<char>, after: Seq<char>|
            haystack == before + needle + after;
        let i = before.len() as int;
        assert(haystack.subrange(i, i + needle.len()) =~= needle);
    }
}

} // verus!
