use zluda::device::attribute_value;
use zluda::device::checked_device_index;
use zluda::device::device_name_with_suffix;
use zluda::device::get_max_simd;
use zluda::device::max_total_mem;
use zluda::device::ComputeProperties;
use zluda::device::CUdevice_attribute;
use zluda::device::DeviceProperties;
use zluda::device::ImageProperties;
use zluda::dump::compile_kernel_pattern;
use zluda::dump::directive_to_kernel;
use zluda::dump::find_buffer;
use zluda::dump::record_module_image;
use zluda::dump::should_dump_kernel;
use zluda::dump::to_str;
use zluda::fatbin::best_untried;
use zluda::fatbin::grow_capacity;
use zluda::fatbin::initial_capacity;
use zluda::fatbin::parse_fatbin;
use zluda::fatbin::FatbinError;
use zluda::inject::construct_command_line;
use zluda::inject::create_inject_path;
use zluda::inject::create_redirect_path;
use zluda::parser::parse_ptx_module;
use zluda::redirect::is_nvcuda_dll_utf16;
use zluda::redirect::is_nvcuda_dll_utf8;

const MODULE: &str = "
.version 6.5
.target sm_30
.address_size 64
.visible .entry add_one(.param .u64 input, .param .u64 output)
{
    .reg .u64 %rd<4>;
    ld.param.u64 %rd0, [input];
    ld.param.u64 %rd1, [output];
    ld.global.u64 %rd2, [%rd0];
    add.u64 %rd3, %rd2, 1;
    st.global.u64 [%rd1], %rd3;
    ret;
}
";

#[test]
fn kernel_argument_sizes_are_tabulated() {
    let mut errors = Vec::new();
    let ast = parse_ptx_module(MODULE, &mut errors).unwrap();
    let kernels: Vec<_> = ast.directives.iter().filter_map(directive_to_kernel).collect();
    assert_eq!(kernels.len(), 1);
    assert_eq!(kernels[0].0, "add_one");
    assert_eq!(kernels[0].1, vec![8, 8]);
}

#[test]
fn record_module_image_accepts_a_well_formed_module() {
    let (dump, ast) = record_module_image(MODULE).unwrap();
    assert_eq!(dump.content, MODULE);
    assert_eq!(dump.kernels_args.len(), 1);
    assert_eq!(dump.kernels_args[0].0, "add_one");
    assert_eq!(dump.kernels_args[0].1, vec![8, 8]);
    assert_eq!(ast.directives.len(), 1);
}

#[test]
fn record_module_image_rejects_text_without_the_header() {
    assert!(record_module_image("not a module at all").is_err());
}

#[test]
fn record_module_image_rejects_a_broken_module() {
    let broken = MODULE.replace("add.u64 %rd3, %rd2, 1;", "add.u64 %rd3 %rd2 1");
    let errs = record_module_image(&broken).unwrap_err();
    assert!(!errs.is_empty());
}

#[test]
fn to_str_finds_the_ascii_terminated_prefix() {
    assert_eq!(to_str(b"hello\0rest"), Some(5));
    assert_eq!(to_str(b"\0"), Some(0));
    assert_eq!(to_str(b"no terminator"), None);
    assert_eq!(to_str(b"bad\xff byte\0"), None);
}

#[test]
fn kernel_filter_matches_names() {
    let re = compile_kernel_pattern("^add_").unwrap();
    assert!(should_dump_kernel("add_one", Some(&re)));
    assert!(!should_dump_kernel("mul_two", Some(&re)));
    assert!(should_dump_kernel("anything", None));
}

#[test]
fn invalid_kernel_filter_is_rejected() {
    assert!(compile_kernel_pattern("(unclosed").is_none());
}

#[test]
fn buffers_are_found_by_their_start() {
    let buffers = vec![(0x1000usize, 64usize), (0x2000, 128)];
    assert_eq!(find_buffer(&buffers, 0x2000), Some((0x2000, 128)));
    assert_eq!(find_buffer(&buffers, 0x3000), None);
}

fn push_u16(v: &mut Vec<u8>, x: u16) {
    v.extend_from_slice(&x.to_le_bytes());
}

fn push_u32(v: &mut Vec<u8>, x: u32) {
    v.extend_from_slice(&x.to_le_bytes());
}

fn push_u64(v: &mut Vec<u8>, x: u64) {
    v.extend_from_slice(&x.to_le_bytes());
}

fn fatbin_with_entries(entries: &[(u16, u16, u32, &[u8])]) -> Vec<u8> {
    let mut files = Vec::new();
    for (kind, version, sm, payload) in entries {
        let padded = ((payload.len() + 7) / 8 * 8) as u32;
        push_u16(&mut files, *kind);
        push_u16(&mut files, *version);
        push_u32(&mut files, 64); // header size
        push_u32(&mut files, padded);
        push_u32(&mut files, 0);
        push_u32(&mut files, payload.len() as u32);
        push_u32(&mut files, 0);
        push_u32(&mut files, 0);
        push_u32(&mut files, *sm);
        push_u32(&mut files, 64);
        push_u32(&mut files, 0);
        push_u64(&mut files, 0);
        push_u64(&mut files, 0);
        push_u64(&mut files, payload.len() as u64);
        files.extend_from_slice(payload);
        files.resize(files.len() + (padded as usize - payload.len()), 0);
    }
    let mut out = Vec::new();
    push_u32(&mut out, 0xBA55ED50);
    push_u16(&mut out, 1);
    push_u16(&mut out, 16);
    push_u64(&mut out, files.len() as u64);
    out.extend_from_slice(&files);
    out
}

#[test]
fn fatbin_entries_are_walked_and_filtered() {
    let data = fatbin_with_entries(&[
        (1, 0x101, 30, b"lower"),
        (2, 0x101, 70, b"not ptx"),
        (1, 0x101, 60, b"higher"),
    ]);
    let files = parse_fatbin(&data).unwrap();
    assert_eq!(files.len(), 2);
    assert_eq!(files[0].sm_version, 30);
    assert_eq!(files[1].sm_version, 60);
    assert_eq!(
        &data[files[1].payload_offset..files[1].payload_offset + files[1].payload_size as usize],
        b"higher"
    );
}

#[test]
fn fatbin_bad_magic_is_rejected() {
    let mut data = fatbin_with_entries(&[(1, 0x101, 30, b"x")]);
    data[0] = 0;
    assert_eq!(parse_fatbin(&data).unwrap_err(), FatbinError::BadMagic);
}

#[test]
fn truncated_fatbin_is_rejected() {
    let data = fatbin_with_entries(&[(1, 0x101, 30, b"payload")]);
    assert_eq!(parse_fatbin(&data[..data.len() - 4]).unwrap_err(), FatbinError::Truncated);
}

#[test]
fn the_highest_architecture_is_tried_first() {
    let data = fatbin_with_entries(&[(1, 0x101, 30, b"a"), (1, 0x101, 60, b"b")]);
    let files = parse_fatbin(&data).unwrap();
    let mut tried = vec![false; files.len()];
    let first = best_untried(&files, &tried).unwrap();
    assert_eq!(files[first].sm_version, 60);
    tried[first] = true;
    let second = best_untried(&files, &tried).unwrap();
    assert_eq!(files[second].sm_version, 30);
    tried[second] = true;
    assert!(best_untried(&files, &tried).is_none());
}

#[test]
fn the_first_buffer_follows_the_recorded_size_and_retries_are_capped() {
    assert_eq!(initial_capacity(10), 1024);
    assert_eq!(initial_capacity(5000), 5000);
    // a recorded size over the retry ceiling is still honoured up front
    assert_eq!(initial_capacity(0x2000_0000), 0x2000_0000);
    assert_eq!(initial_capacity(u64::MAX), usize::MAX);
    assert_eq!(grow_capacity(1024), Some(2048));
    assert_eq!(grow_capacity(0x80_0000), Some(0x100_0000));
    assert_eq!(grow_capacity(0x100_0000), None);
}

fn utf16(s: &str) -> Vec<u16> {
    s.encode_utf16().collect()
}

#[test]
fn plain_arguments_join_with_spaces() {
    let args = vec!["child.exe".to_string(), "alpha".to_string(), "beta".to_string()];
    let line = construct_command_line(&args);
    let mut expected = utf16("child.exe alpha beta");
    expected.push(0);
    assert_eq!(line, expected);
}

#[test]
fn arguments_with_spaces_are_quoted() {
    let args = vec!["child.exe".to_string(), "one two".to_string()];
    let line = construct_command_line(&args);
    let mut expected = utf16("child.exe \"one two\"");
    expected.push(0);
    assert_eq!(line, expected);
}

#[test]
fn backslashes_before_a_quote_are_doubled_and_the_quote_escaped() {
    let args = vec!["a\\\"b".to_string()];
    let line = construct_command_line(&args);
    let mut expected = utf16("\"a\\\\\\\"b\"");
    expected.push(0);
    assert_eq!(line, expected);
}

#[test]
fn trailing_backslashes_are_doubled_inside_quotes() {
    let args = vec!["dir \\".to_string()];
    let line = construct_command_line(&args);
    let mut expected = utf16("\"dir \\\\\"");
    expected.push(0);
    assert_eq!(line, expected);
}

#[test]
fn the_redirect_path_is_the_library_beside_the_launcher() {
    let path = create_redirect_path("C:\\tools");
    assert_eq!(path, b"C:\\tools\\zluda_redirect.dll\0".to_vec());
}

#[test]
fn the_redirect_path_keeps_a_non_ascii_directory() {
    let path = create_redirect_path("C:\\außen");
    let mut expected = "C:\\außen\\zluda_redirect.dll".as_bytes().to_vec();
    expected.push(0);
    assert_eq!(path, expected);
}

#[test]
fn inject_path_uses_the_bundled_driver_after_a_bare_separator() {
    let args = vec!["--".to_string(), "child.exe".to_string()];
    let (path, rest) = create_inject_path(&args, "C:\\tools").unwrap();
    let mut expected = utf16("C:\\tools\\nvcuda.dll");
    expected.push(0);
    assert_eq!(path, expected);
    assert_eq!(rest, 1);
}

#[test]
fn inject_path_uses_the_named_library_before_a_separator() {
    let args = vec!["my.dll".to_string(), "--".to_string(), "child.exe".to_string()];
    let (path, rest) = create_inject_path(&args, "C:\\tools").unwrap();
    let mut expected = utf16("my.dll");
    expected.push(0);
    assert_eq!(path, expected);
    assert_eq!(rest, 2);
}

#[test]
fn malformed_launcher_arguments_are_a_usage_error() {
    let args = vec!["child.exe".to_string()];
    assert!(create_inject_path(&args, "C:\\tools").is_none());
    assert!(create_inject_path(&Vec::new(), "C:\\tools").is_none());
}

#[test]
fn the_driver_library_name_matches_case_insensitively() {
    assert!(is_nvcuda_dll_utf8(b"C:\\Windows\\System32\\nvcuda.dll\0"));
    assert!(is_nvcuda_dll_utf8(b"NVCUDA.DLL\0"));
    assert!(is_nvcuda_dll_utf8(b"NvCuDa.DlL\0trailing"));
    assert!(!is_nvcuda_dll_utf8(b"kernel32.dll\0"));
    assert!(!is_nvcuda_dll_utf8(b"dll\0"));
}

#[test]
fn the_wide_driver_library_name_matches_case_insensitively() {
    let mut wide: Vec<u16> = "c:\\sys\\NVcuda.dll".encode_utf16().collect();
    wide.push(0);
    assert!(is_nvcuda_dll_utf16(&wide));
    let mut other: Vec<u16> = "c:\\sys\\other.dll".encode_utf16().collect();
    other.push(0);
    assert!(!is_nvcuda_dll_utf16(&other));
}

#[test]
fn static_attributes_have_their_fixed_values() {
    assert_eq!(CUdevice_attribute::GpuOverlap.get_static_value(), Some(1));
    assert_eq!(CUdevice_attribute::ComputeCapabilityMajor.get_static_value(), Some(8));
    assert_eq!(CUdevice_attribute::ComputeCapabilityMinor.get_static_value(), Some(0));
    assert_eq!(CUdevice_attribute::WarpSize.get_static_value(), None);
}

fn sample_props() -> (DeviceProperties, ComputeProperties, ImageProperties) {
    (
        DeviceProperties {
            max_hardware_contexts: 2,
            num_slices: 3,
            num_subslices_per_slice: 4,
            num_eus_per_subslice: 8,
            num_threads_per_eu: 7,
        },
        ComputeProperties {
            max_total_group_size: 512,
            max_group_size_x: 512,
            max_group_size_y: 512,
            max_group_size_z: 512,
            max_group_count_x: 0xffff_ffff,
            max_group_count_y: 65535,
            max_group_count_z: 65535,
            max_shared_local_memory: 65536,
            sub_group_sizes: vec![8, 32, 16],
        },
        ImageProperties { max_image_dims_1d: 16384 },
    )
}

#[test]
fn attribute_values_come_from_the_properties() {
    let (props, compute, image) = sample_props();
    let simd = get_max_simd(&compute).unwrap();
    assert_eq!(simd, 32);
    let get = |a| attribute_value(a, &props, &compute, &image, simd);
    assert_eq!(get(CUdevice_attribute::MultiprocessorCount), Some(12));
    assert_eq!(get(CUdevice_attribute::MaxThreadsPerMultiprocessor), Some(8 * 7 * 32));
    assert_eq!(get(CUdevice_attribute::MaxThreadsPerBlock), Some(512));
    // an out-of-range count clamps into the i32 range
    assert_eq!(get(CUdevice_attribute::MaxGridDimX), Some(i32::MAX));
    assert_eq!(get(CUdevice_attribute::WarpSize), Some(32));
    assert_eq!(get(CUdevice_attribute::GpuOverlap), Some(1));
    assert_eq!(get(CUdevice_attribute::Other), None);
}

#[test]
fn total_memory_is_the_largest_region() {
    assert_eq!(max_total_mem(&vec![1 << 30, 1 << 33, 1 << 31]), Some(1 << 33));
    assert_eq!(max_total_mem(&Vec::new()), None);
}

#[test]
fn device_ordinals_are_validated() {
    assert_eq!(checked_device_index(0, 2), Some(0));
    assert_eq!(checked_device_index(1, 2), Some(1));
    assert_eq!(checked_device_index(2, 2), None);
    assert_eq!(checked_device_index(-1, 2), None);
}

#[test]
fn the_device_name_gets_the_longest_suffix_that_fits() {
    let long = device_name_with_suffix(b"Iris\0", 100);
    assert_eq!(long, b"Iris [github.com/vosen/ZLUDA]\0".to_vec());
    let short = device_name_with_suffix(b"Iris\0", 20);
    assert_eq!(short, b"Iris [ZLUDA]\0".to_vec());
    let bare = device_name_with_suffix(b"Iris\0", 10);
    assert_eq!(bare, b"Iris\0".to_vec());
    let truncated = device_name_with_suffix(b"Iris\0", 3);
    assert_eq!(truncated, b"Ir\0".to_vec());
}
