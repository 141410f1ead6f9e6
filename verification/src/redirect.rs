//! The pure decision of the library-redirection layer: whether a requested
//! library name, in its narrow or wide form, names the driver library that
//! must be redirected. The name arrives as a zero-terminated buffer and
//! matches case-insensitively on its suffix.

use vstd::prelude::*;

verus! {

/// The driver library name that triggers redirection, as bytes.
pub open spec fn nvcuda_name_u8() -> Seq<u8> {
    seq![78u8, 86u8, 67u8, 85u8, 68u8, 65u8, 46u8, 68u8, 76u8, 76u8]
}

/// ASCII uppercasing of one byte.
pub open spec fn spec_upper_u8(b: u8) -> u8 {
    if 97 <= b <= 122 {
        (b - 32) as u8
    } else {
        b
    }
}

/// ASCII uppercasing of one wide unit.
pub open spec fn spec_upper_u16(b: u16) -> u16 {
    if 97 <= b <= 122 {
        (b - 32) as u16
    } else {
        b
    }
}

/// The length of the zero-terminated name inside the buffer: up to the
/// first zero, or the whole buffer when none occurs.
pub open spec fn spec_cstr_len_u8(s: Seq<u8>) -> nat
    decreases s.len(),
{
    if s.len() == 0 {
        0
    } else if s[0] == 0 {
        0
    } else {
        1 + spec_cstr_len_u8(s.drop_first())
    }
}

/// The length of the zero-terminated wide name inside the buffer.
pub open spec fn spec_cstr_len_u16(s: Seq<u16>) -> nat
    decreases s.len(),
{
    if s.len() == 0 {
        0
    } else if s[0] == 0 {
        0
    } else {
        1 + spec_cstr_len_u16(s.drop_first())
    }
}

/// The name ends, case-insensitively, in the driver library's name.
pub open spec fn spec_is_nvcuda_u8(name: Seq<u8>) -> bool {
    name.len() >= 10 && forall|k: int|
        0 <= k < 10 ==> spec_upper_u8(#[trigger] name[name.len() - 10 + k]) == nvcuda_name_u8()[k]
}

/// The wide name ends, case-insensitively, in the driver library's name.
pub open spec fn spec_is_nvcuda_u16(name: Seq<u16>) -> bool {
    name.len() >= 10 && forall|k: int|
        0 <= k < 10 ==> spec_upper_u16(#[trigger] name[name.len() - 10 + k]) == nvcuda_name_u8()[k]
            as u16
}

/// The index of the first zero equals the recursive zero-terminated
/// length.
pub proof fn lemma_cstr_len_u8(s: Seq<u8>, i: int)
    requires
        0 <= i <= s.len(),
        forall|k: int| 0 <= k < i ==> #[trigger] s[k] != 0,
        i < s.len() ==> s[i] == 0,
    ensures
        spec_cstr_len_u8(s) == i,
    decreases i,
{
    if s.len() == 0 {
    } else if i == 0 {
    } else {
        lemma_cstr_len_u8(s.drop_first(), i - 1);
    }
}

/// The index of the first zero equals the recursive zero-terminated
/// length, for wide buffers.
pub proof fn lemma_cstr_len_u16(s: Seq<u16>, i: int)
    requires
        0 <= i <= s.len(),
        forall|k: int| 0 <= k < i ==> #[trigger] s[k] != 0,
        i < s.len() ==> s[i] == 0,
    ensures
        spec_cstr_len_u16(s) == i,
    decreases i,
{
    if s.len() == 0 {
    } else if i == 0 {
    } else {
        lemma_cstr_len_u16(s.drop_first(), i - 1);
    }
}

/// ASCII uppercasing of one byte.
fn upper_u8(b: u8) -> (r: u8)
    ensures
        r == spec_upper_u8(b),
{
    if b >= 97 && b <= 122 {
        b - 32
    } else {
        b
    }
}

/// ASCII uppercasing of one wide unit.
fn upper_u16(b: u16) -> (r: u16)
    ensures
        r == spec_upper_u16(b),
{
    if b >= 97 && b <= 122 {
        b - 32
    } else {
        b
    }
}

/// Whether a zero-terminated narrow library name ends, case-insensitively,
/// in the driver library's name.
#[verifier::loop_isolation(false)]
pub fn is_nvcuda_dll_utf8(lib: &[u8]) -> (r: bool)
    ensures
        r == spec_is_nvcuda_u8(lib@.take(spec_cstr_len_u8(lib@) as int)),
{
    let n = lib.len();
    let mut len: usize = 0;
    while len < n && lib[len] != 0
        invariant
            len <= n,
            forall|k: int| 0 <= k < len ==> #[trigger] lib@[k] != 0,
        decreases n - len,
    {
        len += 1;
    }
    proof {
        lemma_cstr_len_u8(lib@, len as int);
    }
    let ghost name = lib@.take(len as int);
    if len < 10 {
        return false;
    }
    let pattern_str = "NVCUDA.DLL";
    let pattern = pattern_str.as_bytes();
    proof {
        reveal_strlit("NVCUDA.DLL");
        vstd::string::is_ascii_spec_bytes(pattern_str);
        assert(pattern@ =~= nvcuda_name_u8());
    }
    let start = len - 10;
    let mut k: usize = 0;
    while k < 10
        invariant
            k <= 10,
            forall|j: int| 0 <= j < k ==> spec_upper_u8(#[trigger] name[start + j]) == nvcuda_name_u8()[j],
        decreases 10 - k,
    {
        if upper_u8(lib[start + k]) != pattern[k] {
            proof {
                assert(name[start + k] == lib@[start + k]);
            }
            return false;
        }
        proof {
            assert(name[start + k] == lib@[start + k]);
        }
        k += 1;
    }
    true
}

/// Whether a zero-terminated wide library name ends, case-insensitively,
/// in the driver library's name.
#[verifier::loop_isolation(false)]
pub fn is_nvcuda_dll_utf16(lib: &[u16]) -> (r: bool)
    ensures
        r == spec_is_nvcuda_u16(lib@.take(spec_cstr_len_u16(lib@) as int)),
{
    let n = lib.len();
    let mut len: usize = 0;
    while len < n && lib[len] != 0
        invariant
            len <= n,
            forall|k: int| 0 <= k < len ==> #[trigger] lib@[k] != 0,
        decreases n - len,
    {
        len += 1;
    }
    proof {
        lemma_cstr_len_u16(lib@, len as int);
    }
    let ghost name = lib@.take(len as int);
    if len < 10 {
        return false;
    }
    let pattern_str = "NVCUDA.DLL";
    let pattern = pattern_str.as_bytes();
    proof {
        reveal_strlit("NVCUDA.DLL");
        vstd::string::is_ascii_spec_bytes(pattern_str);
        assert(pattern@ =~= nvcuda_name_u8());
    }
    let start = len - 10;
    let mut k: usize = 0;
    while k < 10
        invariant
            k <= 10,
            forall|j: int| 0 <= j < k ==> spec_upper_u16(#[trigger] name[start + j]) == nvcuda_name_u8()[j] as u16,
        decreases 10 - k,
    {
        if upper_u16(lib[start + k]) != (pattern[k] as u16) {
            proof {
                assert(name[start + k] == lib@[start + k]);
            }
            return false;
        }
        proof {
            assert(name[start + k] == lib@[start + k]);
        }
        k += 1;
    }
    true
}

/// The redirected library: the driver name goes to the replacement path,
/// anything else stays itself.
pub fn choose_library_utf8<'a>(requested: &'a [u8], replacement: &'a [u8]) -> (r: &'a [u8])
    ensures
        spec_is_nvcuda_u8(requested@.take(spec_cstr_len_u8(requested@) as int)) ==> r@
            == replacement@,
        !spec_is_nvcuda_u8(requested@.take(spec_cstr_len_u8(requested@) as int)) ==> r@
            == requested@,
{
    if is_nvcuda_dll_utf8(requested) {
        replacement
    } else {
        requested
    }
}

/// The redirected wide library: the driver name goes to the replacement
/// path, anything else stays itself.
pub fn choose_library_utf16<'a>(requested: &'a [u16], replacement: &'a [u16]) -> (r: &'a [u16])
    ensures
        spec_is_nvcuda_u16(requested@.take(spec_cstr_len_u16(requested@) as int)) ==> r@
            == replacement@,
        !spec_is_nvcuda_u16(requested@.take(spec_cstr_len_u16(requested@) as int)) ==> r@
            == requested@,
{
    if is_nvcuda_dll_utf16(requested) {
        replacement
    } else {
        requested
    }
}

} // verus!
