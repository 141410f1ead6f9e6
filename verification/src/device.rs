//! The pure computations of the device shim: static attribute values, the
//! attribute arithmetic over queried device properties, the advertised
//! device-name buffer with its project suffix, and the memory-size
//! aggregation. The driver queries themselves stay with the caller, which
//! hands their results in as plain values.

use vstd::prelude::*;
use vstd::string::StringSliceAdditionalSpecFns;

verus! {

/// The device attributes the shim answers. `Other` stands for every
/// attribute outside this list, which the shim leaves unanswered.
#[derive(Clone, Copy, PartialEq, Eq, Structural, Debug)]
#[allow(non_camel_case_types)]
pub enum CUdevice_attribute {
    GpuOverlap,
    KernelExecTimeout,
    Integrated,
    ComputeCapabilityMajor,
    ComputeCapabilityMinor,
    CanMapHostMemory,
    AsyncEngineCount,
    MultiprocessorCount,
    MaxThreadsPerMultiprocessor,
    MaxThreadsPerBlock,
    MaximumTexture1dWidth,
    MaxGridDimX,
    MaxGridDimY,
    MaxGridDimZ,
    MaxBlockDimX,
    MaxBlockDimY,
    MaxBlockDimZ,
    MaxSharedMemoryPerBlock,
    WarpSize,
    Other,
}

/// The attribute's fixed answer, independent of any device: overlap,
/// timeout, integration and host mapping are advertised as present, and
/// the compute capability as 8.0.
pub open spec fn spec_static_value(a: CUdevice_attribute) -> Option<i32> {
    match a {
        CUdevice_attribute::GpuOverlap => Some(1int as i32),
        CUdevice_attribute::KernelExecTimeout => Some(1int as i32),
        CUdevice_attribute::Integrated => Some(1int as i32),
        CUdevice_attribute::ComputeCapabilityMajor => Some(8int as i32),
        CUdevice_attribute::ComputeCapabilityMinor => Some(0int as i32),
        CUdevice_attribute::CanMapHostMemory => Some(1int as i32),
        _ => None,
    }
}

impl CUdevice_attribute {
    /// The attribute's fixed answer; see `spec_static_value`.
    pub fn get_static_value(self) -> (r: Option<i32>)
        ensures
            r == spec_static_value(self),
    {
        match self {
            CUdevice_attribute::GpuOverlap => Some(1),
            CUdevice_attribute::KernelExecTimeout => Some(1),
            CUdevice_attribute::Integrated => Some(1),
            CUdevice_attribute::ComputeCapabilityMajor => Some(8),
            CUdevice_attribute::ComputeCapabilityMinor => Some(0),
            CUdevice_attribute::CanMapHostMemory => Some(1),
            _ => None,
        }
    }
}

/// The queried general properties of a device, as plain values.
pub struct DeviceProperties {
    pub max_hardware_contexts: u32,
    pub num_slices: u32,
    pub num_subslices_per_slice: u32,
    pub num_eus_per_subslice: u32,
    pub num_threads_per_eu: u32,
}

/// The queried compute properties of a device, as plain values.
pub struct ComputeProperties {
    pub max_total_group_size: u32,
    pub max_group_size_x: u32,
    pub max_group_size_y: u32,
    pub max_group_size_z: u32,
    pub max_group_count_x: u32,
    pub max_group_count_y: u32,
    pub max_group_count_z: u32,
    pub max_shared_local_memory: u32,
    pub sub_group_sizes: Vec<u32>,
}

/// The queried image properties of a device, as plain values.
pub struct ImageProperties {
    pub max_image_dims_1d: u32,
}

/// The widest SIMD width the device offers: the maximum of its subgroup
/// sizes, absent only when it reports none.
#[verifier::loop_isolation(false)]
pub fn get_max_simd(compute: &ComputeProperties) -> (r: Option<u32>)
    ensures
        r is Some <==> compute.sub_group_sizes@.len() > 0,
        r is Some ==> (exists|i: int|
            0 <= i < compute.sub_group_sizes@.len() && compute.sub_group_sizes@[i] == r.unwrap())
            && (forall|i: int|
            0 <= i < compute.sub_group_sizes@.len() ==> #[trigger] compute.sub_group_sizes@[i]
                <= r.unwrap()),
{
    let n = compute.sub_group_sizes.len();
    if n == 0 {
        return None;
    }
    let mut best = compute.sub_group_sizes[0];
    let mut i: usize = 1;
    while i < n
        invariant
            1 <= i <= n,
            exists|k: int| 0 <= k < i && compute.sub_group_sizes@[k] == best,
            forall|k: int| 0 <= k < i ==> #[trigger] compute.sub_group_sizes@[k] <= best,
        decreases n - i,
    {
        if compute.sub_group_sizes[i] > best {
            best = compute.sub_group_sizes[i];
        }
        i += 1;
    }
    Some(best)
}

/// A u32 clamped into the non-negative range of an i32.
pub open spec fn spec_clamp_i32(v: u32) -> i32 {
    if v > 0x7fff_ffff {
        0x7fff_ffffint as i32
    } else {
        v as i32
    }
}

/// A u32 clamped into the non-negative range of an i32.
pub fn clamp_i32(v: u32) -> (r: i32)
    ensures
        r == spec_clamp_i32(v),
{
    if v > 0x7fff_ffff {
        0x7fff_ffff
    } else {
        v as i32
    }
}

/// The answer of each queried attribute, computed from the device's
/// properties: the static attributes keep their fixed value, the counted
/// and sized attributes read the matching property (clamped into the i32
/// range or combined by multiplication where the device reports factors),
/// and an attribute outside the list has no answer.
pub open spec fn spec_attribute_value(
    a: CUdevice_attribute,
    props: DeviceProperties,
    compute: ComputeProperties,
    image: ImageProperties,
    max_simd: u32,
) -> Option<i32> {
    if spec_static_value(a) is Some {
        spec_static_value(a)
    } else {
        match a {
            CUdevice_attribute::AsyncEngineCount => Some(
                spec_clamp_i32(props.max_hardware_contexts),
            ),
            CUdevice_attribute::MultiprocessorCount => Some(
                spec_clamp_i32(props.num_slices.wrapping_mul(props.num_subslices_per_slice)),
            ),
            CUdevice_attribute::MaxThreadsPerMultiprocessor => Some(
                spec_clamp_i32(
                    props.num_eus_per_subslice.wrapping_mul(props.num_threads_per_eu).wrapping_mul(
                        max_simd,
                    ),
                ),
            ),
            CUdevice_attribute::MaxThreadsPerBlock => Some(
                spec_clamp_i32(compute.max_total_group_size),
            ),
            CUdevice_attribute::MaximumTexture1dWidth => Some(
                spec_clamp_i32(image.max_image_dims_1d),
            ),
            CUdevice_attribute::MaxGridDimX => Some(spec_clamp_i32(compute.max_group_count_x)),
            CUdevice_attribute::MaxGridDimY => Some(spec_clamp_i32(compute.max_group_count_y)),
            CUdevice_attribute::MaxGridDimZ => Some(spec_clamp_i32(compute.max_group_count_z)),
            CUdevice_attribute::MaxBlockDimX => Some(spec_clamp_i32(compute.max_group_size_x)),
            CUdevice_attribute::MaxBlockDimY => Some(spec_clamp_i32(compute.max_group_size_y)),
            CUdevice_attribute::MaxBlockDimZ => Some(spec_clamp_i32(compute.max_group_size_z)),
            CUdevice_attribute::MaxSharedMemoryPerBlock => Some(
                spec_clamp_i32(compute.max_shared_local_memory),
            ),
            CUdevice_attribute::WarpSize => Some(spec_clamp_i32(max_simd)),
            _ => None,
        }
    }
}

/// The answer of each queried attribute; see `spec_attribute_value`. The
/// factor products wrap like the driver's 32-bit arithmetic.
pub fn attribute_value(
    a: CUdevice_attribute,
    props: &DeviceProperties,
    compute: &ComputeProperties,
    image: &ImageProperties,
    max_simd: u32,
) -> (r: Option<i32>)
    ensures
        r == spec_attribute_value(a, *props, *compute, *image, max_simd),
{
    match a.get_static_value() {
        Some(v) => Some(v),
        None => match a {
            CUdevice_attribute::AsyncEngineCount => Some(clamp_i32(props.max_hardware_contexts)),
            CUdevice_attribute::MultiprocessorCount => {
                let product = props.num_slices.wrapping_mul(props.num_subslices_per_slice);
                Some(clamp_i32(product))
            },
            CUdevice_attribute::MaxThreadsPerMultiprocessor => {
                let product = props.num_eus_per_subslice.wrapping_mul(
                    props.num_threads_per_eu,
                ).wrapping_mul(max_simd);
                Some(clamp_i32(product))
            },
            CUdevice_attribute::MaxThreadsPerBlock => Some(clamp_i32(compute.max_total_group_size)),
            CUdevice_attribute::MaximumTexture1dWidth => Some(clamp_i32(image.max_image_dims_1d)),
            CUdevice_attribute::MaxGridDimX => Some(clamp_i32(compute.max_group_count_x)),
            CUdevice_attribute::MaxGridDimY => Some(clamp_i32(compute.max_group_count_y)),
            CUdevice_attribute::MaxGridDimZ => Some(clamp_i32(compute.max_group_count_z)),
            CUdevice_attribute::MaxBlockDimX => Some(clamp_i32(compute.max_group_size_x)),
            CUdevice_attribute::MaxBlockDimY => Some(clamp_i32(compute.max_group_size_y)),
            CUdevice_attribute::MaxBlockDimZ => Some(clamp_i32(compute.max_group_size_z)),
            CUdevice_attribute::MaxSharedMemoryPerBlock => Some(
                clamp_i32(compute.max_shared_local_memory),
            ),
            CUdevice_attribute::WarpSize => Some(clamp_i32(max_simd)),
            _ => None,
        },
    }
}

/// The device's total memory: the largest of its memory regions, absent
/// only when it reports none.
#[verifier::loop_isolation(false)]
pub fn max_total_mem(region_sizes: &Vec<u64>) -> (r: Option<u64>)
    ensures
        r is Some <==> region_sizes@.len() > 0,
        r is Some ==> (exists|i: int|
            0 <= i < region_sizes@.len() && region_sizes@[i] == r.unwrap()) && (forall|i: int|
            0 <= i < region_sizes@.len() ==> #[trigger] region_sizes@[i] <= r.unwrap()),
{
    let n = region_sizes.len();
    if n == 0 {
        return None;
    }
    let mut best = region_sizes[0];
    let mut i: usize = 1;
    while i < n
        invariant
            1 <= i <= n,
            exists|k: int| 0 <= k < i && region_sizes@[k] == best,
            forall|k: int| 0 <= k < i ==> #[trigger] region_sizes@[k] <= best,
        decreases n - i,
    {
        if region_sizes[i] > best {
            best = region_sizes[i];
        }
        i += 1;
    }
    Some(best)
}

/// Validates a requested device ordinal against the device count: a valid
/// ordinal is non-negative and below the count.
pub fn checked_device_index(ordinal: i32, count: usize) -> (r: Option<i32>)
    ensures
        r is Some <==> 0 <= ordinal < count,
        r is Some ==> r.unwrap() == ordinal,
{
    if ordinal >= 0 && (ordinal as usize) < count {
        Some(ordinal)
    } else {
        None
    }
}

/// The long project suffix appended to the advertised device name when it
/// fits.
pub const NAME_SUFFIX_LONG: &'static str = " [github.com/vosen/ZLUDA]";

/// The short project suffix appended when only it fits.
pub const NAME_SUFFIX_SHORT: &'static str = " [ZLUDA]";

/// The advertised name for a caller buffer of `buf_len` bytes: the
/// device's zero-terminated name truncated to the buffer, then the long
/// project suffix when it fits behind the untruncated name, else the short
/// one when that fits, else no suffix, and the one terminating zero.
pub open spec fn spec_device_name(raw: Seq<u8>, buf_len: int) -> Seq<u8> {
    let name_len = crate::redirect::spec_cstr_len_u8(raw) as int;
    let copy_len = if buf_len - 1 < name_len {
        buf_len - 1
    } else {
        name_len
    };
    let long = NAME_SUFFIX_LONG.spec_bytes();
    let short = NAME_SUFFIX_SHORT.spec_bytes();
    if copy_len == name_len && buf_len - name_len > long.len() {
        raw.take(copy_len) + long + seq![0u8]
    } else if copy_len == name_len && buf_len - name_len > short.len() {
        raw.take(copy_len) + short + seq![0u8]
    } else {
        raw.take(copy_len) + seq![0u8]
    }
}

/// Builds the advertised device name; it is exactly `spec_device_name` and
/// never exceeds the caller's buffer.
#[verifier::loop_isolation(false)]
pub fn device_name_with_suffix(raw_name: &[u8], buf_len: usize) -> (r: Vec<u8>)
    requires
        buf_len >= 1,
    ensures
        r@ == spec_device_name(raw_name@, buf_len as int),
        1 <= r@.len() <= buf_len,
        r@.last() == 0,
{
    let n = raw_name.len();
    let mut name_len: usize = 0;
    while name_len < n && raw_name[name_len] != 0
        invariant
            name_len <= n,
            forall|k: int| 0 <= k < name_len ==> #[trigger] raw_name@[k] != 0,
        decreases n - name_len,
    {
        name_len += 1;
    }
    proof {
        crate::redirect::lemma_cstr_len_u8(raw_name@, name_len as int);
    }
    let copy_len = if buf_len - 1 < name_len {
        buf_len - 1
    } else {
        name_len
    };
    let mut out: Vec<u8> = Vec::new();
    let mut i: usize = 0;
    while i < copy_len
        invariant
            i <= copy_len,
            copy_len <= name_len <= n,
            n == raw_name@.len(),
            out@ == raw_name@.take(i as int),
        decreases copy_len - i,
    {
        let ghost pre = out@;
        out.push(raw_name[i]);
        proof {
            assert(out@ =~= raw_name@.take(i + 1));
        }
        i += 1;
    }
    let ghost prefix = raw_name@.take(copy_len as int);
    let long = NAME_SUFFIX_LONG.as_bytes();
    let short = NAME_SUFFIX_SHORT.as_bytes();
    if copy_len == name_len && buf_len - name_len > long.len() {
        let mut k: usize = 0;
        let nl = long.len();
        while k < nl
            invariant
                k <= nl,
                nl == long@.len(),
                out@ == prefix + long@.take(k as int),
            decreases nl - k,
        {
            let ghost pre = out@;
            out.push(long[k]);
            proof {
                assert(out@ =~= prefix + long@.take(k + 1));
            }
            k += 1;
        }
        proof {
            assert(long@.take(nl as int) =~= long@);
        }
    } else if copy_len == name_len && buf_len - name_len > short.len() {
        let mut k: usize = 0;
        let ns = short.len();
        while k < ns
            invariant
                k <= ns,
                ns == short@.len(),
                out@ == prefix + short@.take(k as int),
            decreases ns - k,
        {
            let ghost pre = out@;
            out.push(short[k]);
            proof {
                assert(out@ =~= prefix + short@.take(k + 1));
            }
            k += 1;
        }
        proof {
            assert(short@.take(ns as int) =~= short@);
        }
    }
    out.push(0);
    proof {
        assert(out@ =~= spec_device_name(raw_name@, buf_len as int));
    }
    out
}

} // verus!
