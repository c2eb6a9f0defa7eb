//! GPU feature sets: what each profile requires, what is taken when offered,
//! and the check of a device's features against a profile.
//!
//! A `wgpu::Features` value is a set of feature flags held in two 64-bit
//! words: the wgpu-native flags (`features_wgpu`) and the WebGPU flags
//! (`features_webgpu`). Its contents are modelled as a set of flag positions:
//! bit `b` of the native word is position `b`, bit `b` of the WebGPU word is
//! position `64 + b`.
use vstd::prelude::*;
use wgpu::Features;

use crate::error::{RendererInitializationError, RendererProfile};

verus! {

/// `wgpu::Features`, a flag set of the wgpu crate.
#[verifier::external_type_specification]
#[verifier::external_body]
pub struct ExFeatures(wgpu::Features);

/// The flag positions set in a `wgpu::Features` value.
pub uninterp spec fn feature_set(features: Features) -> Set<int>;

// ---------------------------------------------------------------------------
// Flag positions, as the wgpu source assigns them.

/// `Features::PUSH_CONSTANTS`: native bit 16.
pub open spec fn push_constants_flag() -> int { 16 }
/// `Features::TEXTURE_BINDING_ARRAY`: native bit 8.
pub open spec fn texture_binding_array_flag() -> int { 8 }
/// `Features::SAMPLED_TEXTURE_AND_STORAGE_BUFFER_ARRAY_NON_UNIFORM_INDEXING`: native bit 11.
pub open spec fn non_uniform_indexing_flag() -> int { 11 }
/// `Features::PARTIALLY_BOUND_BINDING_ARRAY`: native bit 13.
pub open spec fn partially_bound_binding_array_flag() -> int { 13 }
/// `Features::MULTI_DRAW_INDIRECT_COUNT`: native bit 15.
pub open spec fn multi_draw_indirect_count_flag() -> int { 15 }
/// `Features::TIMESTAMP_QUERY_INSIDE_PASSES`: native bit 6.
pub open spec fn timestamp_query_inside_passes_flag() -> int { 6 }
/// `Features::DEPTH_CLIP_CONTROL`: WebGPU bit 0.
pub open spec fn depth_clip_control_flag() -> int { 64 }
/// `Features::TEXTURE_COMPRESSION_BC`: WebGPU bit 2.
pub open spec fn texture_compression_bc_flag() -> int { 66 }
/// `Features::TEXTURE_COMPRESSION_ETC2`: WebGPU bit 4.
pub open spec fn texture_compression_etc2_flag() -> int { 68 }
/// `Features::TEXTURE_COMPRESSION_ASTC`: WebGPU bit 5.
pub open spec fn texture_compression_astc_flag() -> int { 69 }
/// `Features::TIMESTAMP_QUERY`: WebGPU bit 7.
pub open spec fn timestamp_query_flag() -> int { 71 }

// ---------------------------------------------------------------------------
// The flag sets of the rules.

/// Features required to run in the GPU-driven profile.
pub open spec fn gpu_driven_required_set() -> Set<int> {
    set![
        push_constants_flag(),
        texture_compression_bc_flag(),
        depth_clip_control_flag(),
        texture_binding_array_flag(),
        non_uniform_indexing_flag(),
        partially_bound_binding_array_flag(),
        multi_draw_indirect_count_flag(),
    ]
}

/// Features required to run in the CPU-driven profile: none.
pub open spec fn cpu_driven_required_set() -> Set<int> {
    Set::empty()
}

/// Features used when the device has them, but not required.
pub open spec fn optional_set() -> Set<int> {
    set![
        depth_clip_control_flag(),
        texture_compression_bc_flag(),
        texture_compression_etc2_flag(),
        texture_compression_astc_flag(),
        timestamp_query_flag(),
        timestamp_query_inside_passes_flag(),
    ]
}

/// Features required by a profile.
pub open spec fn required_set(profile: RendererProfile) -> Set<int> {
    match profile {
        RendererProfile::GpuDriven => gpu_driven_required_set(),
        RendererProfile::CpuDriven => cpu_driven_required_set(),
    }
}

/// Whether a device with the features `device` can run `profile`.
pub open spec fn features_suffice(profile: RendererProfile, device: Set<int>) -> bool {
    required_set(profile).subset_of(device)
}

/// What a device running `profile` is asked for: the required features and
/// the optional ones that the device has.
pub open spec fn granted_set(profile: RendererProfile, device: Set<int>) -> Set<int> {
    required_set(profile).union(optional_set().intersect(device))
}

/// The required features of `profile` that the device lacks.
pub open spec fn missing_set(profile: RendererProfile, device: Set<int>) -> Set<int> {
    required_set(profile).difference(device)
}

// ---------------------------------------------------------------------------
// Calls into wgpu.

/// `Features::empty`: the set with no flag.
#[verifier::external_body]
fn features_empty() -> (r: Features)
    ensures
        feature_set(r) == Set::<int>::empty(),
{
    Features::empty()
}

/// `Features::union` (each word ORed): the union of the two flag sets.
#[verifier::external_body]
fn features_union(a: Features, b: Features) -> (r: Features)
    ensures
        feature_set(r) == feature_set(a).union(feature_set(b)),
{
    a.union(b)
}

/// `Features | Features` (each word ORed): the union of the two flag sets.
#[verifier::external_body]
fn features_or(a: Features, b: Features) -> (r: Features)
    ensures
        feature_set(r) == feature_set(a).union(feature_set(b)),
{
    a | b
}

/// `Features & Features` (each word ANDed): the intersection of the two flag sets.
#[verifier::external_body]
fn features_and(a: Features, b: Features) -> (r: Features)
    ensures
        feature_set(r) == feature_set(a).intersect(feature_set(b)),
{
    a & b
}

/// `Features - Features` (each word `a & !b`): the flags of `a` not in `b`.
#[verifier::external_body]
fn features_sub(a: Features, b: Features) -> (r: Features)
    ensures
        feature_set(r) == feature_set(a).difference(feature_set(b)),
{
    a - b
}

/// `Features::is_empty` (both words zero): whether no flag is set.
#[verifier::external_body]
fn features_is_empty(a: Features) -> (r: bool)
    ensures
        r <==> feature_set(a) == Set::<int>::empty(),
{
    a.is_empty()
}

/// `Features::PUSH_CONSTANTS`: the one flag at native bit 16.
#[verifier::external_body]
fn push_constants() -> (r: Features)
    ensures
        feature_set(r) == set![push_constants_flag()],
{
    Features::PUSH_CONSTANTS
}

/// `Features::TEXTURE_BINDING_ARRAY`: the one flag at native bit 8.
#[verifier::external_body]
fn texture_binding_array() -> (r: Features)
    ensures
        feature_set(r) == set![texture_binding_array_flag()],
{
    Features::TEXTURE_BINDING_ARRAY
}

/// `Features::SAMPLED_TEXTURE_AND_STORAGE_BUFFER_ARRAY_NON_UNIFORM_INDEXING`:
/// the one flag at native bit 11.
#[verifier::external_body]
fn non_uniform_indexing() -> (r: Features)
    ensures
        feature_set(r) == set![non_uniform_indexing_flag()],
{
    Features::SAMPLED_TEXTURE_AND_STORAGE_BUFFER_ARRAY_NON_UNIFORM_INDEXING
}

/// `Features::PARTIALLY_BOUND_BINDING_ARRAY`: the one flag at native bit 13.
#[verifier::external_body]
fn partially_bound_binding_array() -> (r: Features)
    ensures
        feature_set(r) == set![partially_bound_binding_array_flag()],
{
    Features::PARTIALLY_BOUND_BINDING_ARRAY
}

/// `Features::MULTI_DRAW_INDIRECT_COUNT`: the one flag at native bit 15.
#[verifier::external_body]
fn multi_draw_indirect_count() -> (r: Features)
    ensures
        feature_set(r) == set![multi_draw_indirect_count_flag()],
{
    Features::MULTI_DRAW_INDIRECT_COUNT
}

/// `Features::TIMESTAMP_QUERY_INSIDE_PASSES`: the one flag at native bit 6.
#[verifier::external_body]
fn timestamp_query_inside_passes() -> (r: Features)
    ensures
        feature_set(r) == set![timestamp_query_inside_passes_flag()],
{
    Features::TIMESTAMP_QUERY_INSIDE_PASSES
}

/// `Features::DEPTH_CLIP_CONTROL`: the one flag at WebGPU bit 0.
#[verifier::external_body]
fn depth_clip_control() -> (r: Features)
    ensures
        feature_set(r) == set![depth_clip_control_flag()],
{
    Features::DEPTH_CLIP_CONTROL
}

/// `Features::TEXTURE_COMPRESSION_BC`: the one flag at WebGPU bit 2.
#[verifier::external_body]
fn texture_compression_bc() -> (r: Features)
    ensures
        feature_set(r) == set![texture_compression_bc_flag()],
{
    Features::TEXTURE_COMPRESSION_BC
}

/// `Features::TEXTURE_COMPRESSION_ETC2`: the one flag at WebGPU bit 4.
#[verifier::external_body]
fn texture_compression_etc2() -> (r: Features)
    ensures
        feature_set(r) == set![texture_compression_etc2_flag()],
{
    Features::TEXTURE_COMPRESSION_ETC2
}

/// `Features::TEXTURE_COMPRESSION_ASTC`: the one flag at WebGPU bit 5.
#[verifier::external_body]
fn texture_compression_astc() -> (r: Features)
    ensures
        feature_set(r) == set![texture_compression_astc_flag()],
{
    Features::TEXTURE_COMPRESSION_ASTC
}

/// `Features::TIMESTAMP_QUERY`: the one flag at WebGPU bit 7.
#[verifier::external_body]
fn timestamp_query() -> (r: Features)
    ensures
        feature_set(r) == set![timestamp_query_flag()],
{
    Features::TIMESTAMP_QUERY
}

// ---------------------------------------------------------------------------
// The feature sets of the rules, as values.

/// Features required to run in the GPU-driven profile.
pub fn gpu_driven_required_features() -> (r: Features)
    ensures
        feature_set(r) == gpu_driven_required_set(),
{
    let f = features_union(push_constants(), texture_compression_bc());
    let f = features_union(f, depth_clip_control());
    let f = features_union(f, texture_binding_array());
    let f = features_union(f, non_uniform_indexing());
    let f = features_union(f, partially_bound_binding_array());
    let f = features_union(f, multi_draw_indirect_count());
    assert(feature_set(f) =~= gpu_driven_required_set());
    f
}

/// Features required to run in the CPU-driven profile: none.
pub fn cpu_driven_required_features() -> (r: Features)
    ensures
        feature_set(r) == cpu_driven_required_set(),
{
    features_empty()
}

/// Features used when the device offers them, but not required.
pub fn optional_features() -> (r: Features)
    ensures
        feature_set(r) == optional_set(),
{
    let f = features_union(depth_clip_control(), texture_compression_bc());
    let f = features_union(f, texture_compression_etc2());
    let f = features_union(f, texture_compression_astc());
    let f = features_union(f, timestamp_query());
    let f = features_union(f, timestamp_query_inside_passes());
    assert(feature_set(f) =~= optional_set());
    f
}

/// Check that all required features for a given profile are present in the
/// feature set given. On success, returns the features to request: the
/// required ones and the optional ones that the device has.
pub fn check_features(profile: RendererProfile, device: Features) -> (r: Result<
    Features,
    RendererInitializationError,
>)
    ensures
        r is Ok <==> features_suffice(profile, feature_set(device)),
        r matches Ok(granted) ==> feature_set(granted) == granted_set(profile, feature_set(device)),
        r matches Err(e) ==> (e matches RendererInitializationError::MissingDeviceFeatures {
            features,
        } && feature_set(features) == missing_set(profile, feature_set(device))),
{
    let required = match profile {
        RendererProfile::GpuDriven => gpu_driven_required_features(),
        RendererProfile::CpuDriven => cpu_driven_required_features(),
    };
    let optional = features_and(optional_features(), device);
    let missing = features_sub(required, device);
    if !features_is_empty(missing) {
        proof {
            let d = feature_set(device);
            if required_set(profile).subset_of(d) {
                assert(missing_set(profile, d) =~= Set::<int>::empty());
            }
        }
        Err(RendererInitializationError::MissingDeviceFeatures { features: missing })
    } else {
        proof {
            let d = feature_set(device);
            assert forall|x: int| required_set(profile).contains(x) implies d.contains(x) by {
                assert(!missing_set(profile, d).contains(x));
            }
            assert(optional_set().intersect(d) =~= d.intersect(optional_set()));
        }
        let granted = features_or(required, optional);
        Ok(granted)
    }
}

/// The features to ask the device for: those granted by the profile check,
/// and the additional ones the caller names, if any.
pub fn requested_device_features(granted: Features, additional: Option<Features>) -> (r: Features)
    ensures
        feature_set(r) == feature_set(granted).union(
            match additional {
                Some(a) => feature_set(a),
                None => Set::<int>::empty(),
            },
        ),
{
    let extra = match additional {
        Some(a) => a,
        None => features_empty(),
    };
    features_union(granted, extra)
}

/// Law: asking again with the features that a successful check granted
/// succeeds and grants the same features.
pub proof fn lemma_check_features_idempotent(profile: RendererProfile, device: Set<int>)
    requires
        features_suffice(profile, device),
    ensures
        features_suffice(profile, granted_set(profile, device)),
        granted_set(profile, granted_set(profile, device)) == granted_set(profile, device),
        granted_set(profile, device).subset_of(device),
{
    assert(granted_set(profile, granted_set(profile, device)) =~= granted_set(profile, device));
}

/// Law: a device that has the features of the GPU-driven profile has those
/// of the CPU-driven profile.
pub proof fn lemma_gpu_features_imply_cpu_features(device: Set<int>)
    requires
        features_suffice(RendererProfile::GpuDriven, device),
    ensures
        features_suffice(RendererProfile::CpuDriven, device),
{
}

/// Law: the feature flags of each profile, by wgpu flag position. The
/// GPU-driven profile needs push constants (16), texture binding arrays (8),
/// non-uniform indexing (11), partially bound binding arrays (13),
/// multi-draw-indirect count (15), depth clip control (64) and BC texture
/// compression (66); the CPU-driven profile needs nothing. Besides the
/// required flags, a device is asked for depth clip control (64), BC (66),
/// ETC2 (68) and ASTC (69) compression, timestamp queries (71) and timestamp
/// queries inside passes (6) when it has them, and for nothing else.
pub proof fn lemma_profile_feature_flags(device: Set<int>)
    ensures
        features_suffice(RendererProfile::GpuDriven, device) <==> (device.contains(16)
            && device.contains(8) && device.contains(11) && device.contains(13) && device.contains(
            15,
        ) && device.contains(64) && device.contains(66)),
        features_suffice(RendererProfile::CpuDriven, device),
        forall|x: int|
            #[trigger] granted_set(RendererProfile::GpuDriven, device).contains(x) <==> (x == 16
                || x == 8 || x == 11 || x == 13 || x == 15 || x == 64 || x == 66 || ((x == 68
                || x == 69 || x == 71 || x == 6) && device.contains(x))),
        forall|x: int|
            #[trigger] granted_set(RendererProfile::CpuDriven, device).contains(x) <==> ((x == 64
                || x == 66 || x == 68 || x == 69 || x == 71 || x == 6) && device.contains(x)),
        forall|x: int|
            #[trigger] missing_set(RendererProfile::GpuDriven, device).contains(x) <==> ((x == 16
                || x == 8 || x == 11 || x == 13 || x == 15 || x == 64 || x == 66)
                && !device.contains(x)),
        missing_set(RendererProfile::CpuDriven, device) == Set::<int>::empty(),
{
    assert(missing_set(RendererProfile::CpuDriven, device) =~= Set::<int>::empty());
    if device.contains(16) && device.contains(8) && device.contains(11) && device.contains(13)
        && device.contains(15) && device.contains(64) && device.contains(66) {
        assert(gpu_driven_required_set().subset_of(device));
    }
}

} // verus!
