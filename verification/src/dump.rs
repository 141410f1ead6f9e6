//! The compute side of the module-recording tool: extracting per-kernel
//! argument byte sizes from a parsed module, validating raw module images,
//! matching kernel names against a user-supplied filter, and the small
//! table lookups the argument dumper needs. All I/O stays with the caller.

use vstd::prelude::*;
use vstd::string::StringSliceAdditionalSpecFns;

use crate::ast::Directive;
use crate::ast::KernelParam;
use crate::ast::MethodDecl;
use crate::parser::SyntaxError;
use crate::parser::SyntaxErrorKind;

verus! {

/// A recorded module: its source text and, for every kernel it declares,
/// the argument byte sizes in declaration order.
#[derive(Debug)]
pub struct ModuleDump {
    pub content: String,
    pub kernels_args: Vec<(String, Vec<usize>)>,
}

/// One recorded kernel: the text of the module that declared it, its name
/// and its argument byte sizes.
pub struct KernelDump {
    pub module_content: String,
    pub name: String,
    pub arguments: Vec<usize>,
}

/// The argument-size row a directive contributes: a kernel yields its name
/// and the byte size of each input parameter, in order; anything else
/// yields nothing.
pub open spec fn spec_kernel_entry(d: Directive) -> Option<(Seq<char>, Seq<nat>)> {
    match d {
        Directive::Method(f) => match f.func_directive {
            MethodDecl::Kernel { name, in_args } => Some(
                (name@, in_args@.map(|i: int, a: KernelParam| a.v_type.spec_size_of())),
            ),
            MethodDecl::Func { .. } => None,
        },
        Directive::Variable(_) => None,
    }
}

/// Maps a kernel directive to its argument-size row: the kernel's name and
/// the byte size of each declared input parameter, in order. Any other
/// directive maps to nothing.
pub fn directive_to_kernel(dir: &Directive) -> (r: Option<(String, Vec<usize>)>)
    ensures
        r is Some <==> spec_kernel_entry(*dir) is Some,
        r is Some ==> r.unwrap().0@ == spec_kernel_entry(*dir).unwrap().0,
        r is Some ==> r.unwrap().1@.map(|i: int, v: usize| v as nat) == spec_kernel_entry(
            *dir,
        ).unwrap().1,
{
    match dir {
        Directive::Method(f) => match &f.func_directive {
            MethodDecl::Kernel { name, in_args } => {
                let mut sizes: Vec<usize> = Vec::new();
                let n = in_args.len();
                let mut i: usize = 0;
                while i < n
                    invariant
                        i <= n,
                        n == in_args@.len(),
                        sizes@.len() == i,
                        forall|k: int|
                            0 <= k < i ==> (#[trigger] sizes@[k]) as nat
                                == in_args@[k].v_type.spec_size_of(),
                    decreases n - i,
                {
                    sizes.push(in_args[i].v_type.size_of());
                    i += 1;
                }
                proof {
                    assert(sizes@.map(|i: int, v: usize| v as nat) =~= in_args@.map(
                        |i: int, a: KernelParam| a.v_type.spec_size_of(),
                    ));
                }
                Some((name.clone(), sizes))
            },
            MethodDecl::Func { .. } => None,
        },
        Directive::Variable(_) => None,
    }
}

/// The argument-size rows of a directive list: one row per kernel
/// directive, in module order, non-kernel directives contributing nothing.
pub open spec fn spec_kernel_rows(dirs: Seq<Directive>) -> Seq<(Seq<char>, Seq<nat>)>
    decreases dirs.len(),
{
    if dirs.len() == 0 {
        Seq::<(Seq<char>, Seq<nat>)>::empty()
    } else {
        spec_kernel_rows(dirs.drop_last()) + (match spec_kernel_entry(dirs.last()) {
            Some(row) => seq![row],
            None => Seq::<(Seq<char>, Seq<nat>)>::empty(),
        })
    }
}

/// The kernel argument-size table of a directive list: exactly the rows of
/// `spec_kernel_rows`, one per kernel directive, in module order.
#[verifier::loop_isolation(false)]
pub fn kernel_args_table(dirs: &Vec<Directive>) -> (r: Vec<(String, Vec<usize>)>)
    ensures
        r@.len() == spec_kernel_rows(dirs@).len(),
        forall|k: int|
            0 <= k < r@.len() ==> (#[trigger] r@[k]).0@ == spec_kernel_rows(dirs@)[k].0
                && r@[k].1@.map(|i: int, v: usize| v as nat) == spec_kernel_rows(dirs@)[k].1,
{
    let mut out: Vec<(String, Vec<usize>)> = Vec::new();
    let n = dirs.len();
    let mut i: usize = 0;
    while i < n
        invariant
            i <= n,
            n == dirs@.len(),
            out@.len() == spec_kernel_rows(dirs@.take(i as int)).len(),
            forall|k: int|
                0 <= k < out@.len() ==> (#[trigger] out@[k]).0@ == spec_kernel_rows(
                    dirs@.take(i as int),
                )[k].0 && out@[k].1@.map(|i: int, v: usize| v as nat) == spec_kernel_rows(
                    dirs@.take(i as int),
                )[k].1,
        decreases n - i,
    {
        let ghost pre = dirs@.take(i as int);
        proof {
            assert(dirs@.take(i + 1).drop_last() =~= pre);
            assert(dirs@.take(i + 1).last() == dirs@[i as int]);
        }
        match directive_to_kernel(&dirs[i]) {
            Some(entry) => {
                out.push(entry);
            },
            None => {},
        }
        i += 1;
    }
    proof {
        assert(dirs@.take(n as int) =~= dirs@);
    }
    out
}

/// The needle occurs in the haystack starting at `i`.
pub open spec fn occurs_at(hay: Seq<u8>, needle: Seq<u8>, i: int) -> bool {
    0 <= i && i + needle.len() <= hay.len() && hay.subrange(i, i + needle.len()) == needle
}

/// Whether the needle equals the haystack slice starting at `i`.
#[verifier::loop_isolation(false)]
fn matches_at(hay: &[u8], needle: &[u8], i: usize) -> (r: bool)
    requires
        i + needle@.len() <= hay@.len(),
    ensures
        r == (hay@.subrange(i as int, i + needle@.len()) == needle@),
{
    let nn = needle.len();
    let nh = hay.len();
    let mut j: usize = 0;
    while j < nn
        invariant
            j <= nn,
            i + nn <= nh,
            forall|k: int| 0 <= k < j ==> hay@[i + k] == needle@[k],
        decreases nn - j,
    {
        if hay[i + j] != needle[j] {
            proof {
                assert(hay@.subrange(i as int, i + needle@.len())[j as int] == hay@[i + j]);
            }
            return false;
        }
        j += 1;
    }
    proof {
        assert(hay@.subrange(i as int, i + needle@.len()) =~= needle@);
    }
    true
}

/// Whether the needle occurs anywhere in the haystack.
#[verifier::loop_isolation(false)]
fn contains_bytes(hay: &[u8], needle: &[u8]) -> (r: bool)
    ensures
        r == exists|i: int| occurs_at(hay@, needle@, i),
{
    let nh = hay.len();
    let nn = needle.len();
    if nn == 0 {
        proof {
            assert(hay@.subrange(0, 0) =~= needle@);
            assert(occurs_at(hay@, needle@, 0));
        }
        return true;
    }
    if nn > nh {
        proof {
            if exists|i: int| occurs_at(hay@, needle@, i) {
                let i = choose|i: int| occurs_at(hay@, needle@, i);
            }
        }
        return false;
    }
    let mut i: usize = 0;
    while i <= nh - nn
        invariant
            1 <= nn <= nh,
            i <= nh - nn + 1,
            forall|k: int| 0 <= k < i ==> !occurs_at(hay@, needle@, k),
        decreases nh - i,
    {
        if matches_at(hay, needle, i) {
            proof {
                assert(occurs_at(hay@, needle@, i as int));
            }
            return true;
        }
        i += 1;
    }
    proof {
        if exists|k: int| occurs_at(hay@, needle@, k) {
            let k = choose|k: int| occurs_at(hay@, needle@, k);
            assert(k + nn <= nh);
            assert(!occurs_at(hay@, needle@, k));
        }
    }
    false
}

/// The bytes of the mandatory address-size directive.
pub open spec fn address_size_token() -> Seq<u8> {
    seq![46u8, 97u8, 100u8, 100u8, 114u8, 101u8, 115u8, 115u8, 95u8, 115u8, 105u8, 122u8, 101u8]
}

/// Whether a module image carries the mandatory address-size directive; a
/// text without it is not a PTX module image at all.
pub fn has_address_size(image: &str) -> (r: bool)
    ensures
        r == exists|i: int| occurs_at(image.spec_bytes(), address_size_token(), i),
{
    let token = ".address_size";
    proof {
        reveal_strlit(".address_size");
        vstd::string::is_ascii_spec_bytes(token);
        assert(token.spec_bytes() =~= address_size_token());
    }
    contains_bytes(image.as_bytes(), token.as_bytes())
}

/// Records one module image: the image must look like a PTX module and
/// parse without a single syntax error; the record then keeps the source
/// text unchanged and tabulates, for every kernel of the parsed module,
/// its argument byte sizes, exactly as `spec_kernel_rows` lists them. The
/// parsed module is handed back beside the record, and the table is fixed
/// against it. Any syntax error invalidates the image: failure always
/// carries at least one diagnostic, and a text without the address-size
/// directive always fails.
pub fn record_module_image(image: &str) -> (r: Result<
    (ModuleDump, crate::ast::PtxModule),
    Vec<SyntaxError>,
>)
    ensures
        r is Ok ==> r.unwrap().0.content@ == image@,
        r is Ok ==> r.unwrap().0.kernels_args@.len() == spec_kernel_rows(
            r.unwrap().1.directives@,
        ).len(),
        r is Ok ==> forall|k: int|
            0 <= k < r.unwrap().0.kernels_args@.len() ==> (
            #[trigger] r.unwrap().0.kernels_args@[k]).0@ == spec_kernel_rows(
                r.unwrap().1.directives@,
            )[k].0 && r.unwrap().0.kernels_args@[k].1@.map(|i: int, v: usize| v as nat)
                == spec_kernel_rows(r.unwrap().1.directives@)[k].1,
        r is Err ==> r.unwrap_err()@.len() > 0,
        !(exists|i: int| occurs_at(image.spec_bytes(), address_size_token(), i)) ==> r is Err,
{
    if !has_address_size(image) {
        let mut errs: Vec<SyntaxError> = Vec::new();
        errs.push(SyntaxError { kind: SyntaxErrorKind::BadHeader, offset: 0 });
        return Err(errs);
    }
    let mut errors: Vec<SyntaxError> = Vec::new();
    match crate::parser::parse_ptx_module(image, &mut errors) {
        Some(ast) => {
            let kernels_args = kernel_args_table(&ast.directives);
            Ok((ModuleDump { content: image.to_owned(), kernels_args }, ast))
        },
        None => Err(errors),
    }
}

/// The length of the ASCII, zero-terminated prefix of a raw byte buffer:
/// the index of the first zero byte, provided everything before it is
/// ASCII. A buffer with a non-ASCII byte before its terminator, or without
/// a terminator, has no such prefix.
#[verifier::loop_isolation(false)]
pub fn to_str(bytes: &[u8]) -> (r: Option<usize>)
    ensures
        r is Some ==> r.unwrap() < bytes@.len() && bytes@[r.unwrap() as int] == 0 && forall|k: int|
            0 <= k < r.unwrap() ==> 0 < #[trigger] bytes@[k] < 128,
        r is None ==> forall|i: int|
            0 <= i < bytes@.len() && bytes@[i] == 0 ==> exists|k: int|
                0 <= k < i && #[trigger] bytes@[k] >= 128,
{
    let n = bytes.len();
    let mut i: usize = 0;
    while i < n
        invariant
            i <= n,
            forall|k: int| 0 <= k < i ==> 0 < #[trigger] bytes@[k] < 128,
        decreases n - i,
    {
        let b = bytes[i];
        if b == 0 {
            return Some(i);
        }
        if b >= 128 {
            proof {
                assert forall|p: int|
                    0 <= p < bytes@.len() && bytes@[p] == 0 implies exists|k: int|
                    0 <= k < p && #[trigger] bytes@[k] >= 128 by {
                    assert(p > i);
                    assert(bytes@[i as int] >= 128);
                }
            }
            return None;
        }
        i += 1;
    }
    None
}

/// Relies on regex's `Regex` as an opaque compiled pattern.
#[verifier::external_type_specification]
#[verifier::external_body]
pub struct ExRegex(regex::Regex);

/// Relies on regex's `Error` as an opaque pattern-compilation error.
#[verifier::external_type_specification]
#[verifier::external_body]
pub struct ExRegexError(regex::Error);

/// Relies on regex's `Regex::new`: compiling a pattern either succeeds or
/// reports a pattern error; nothing more is assumed of it.
pub assume_specification[ regex::Regex::new ](re: &str) -> Result<regex::Regex, regex::Error>;

/// Relies on regex's `Regex::is_match`: whether the pattern matches
/// somewhere in the haystack; nothing is assumed of the outcome.
pub assume_specification[ regex::Regex::is_match ](r: &regex::Regex, haystack: &str) -> bool;

/// Compiles the user's kernel-name filter; an invalid pattern yields no
/// filter, and the caller then dumps every kernel, as if none was given.
pub fn compile_kernel_pattern(filter: &str) -> (r: Option<regex::Regex>) {
    match regex::Regex::new(filter) {
        Ok(re) => Some(re),
        Err(_) => None,
    }
}

/// Whether a launch of the named kernel should be dumped: with no filter
/// every kernel is dumped, with one only the kernels its pattern matches.
pub fn should_dump_kernel(name: &str, pattern: Option<&regex::Regex>) -> (r: bool)
    ensures
        pattern is None ==> r == true,
{
    match pattern {
        Some(p) => p.is_match(name),
        None => true,
    }
}

/// Finds the recorded allocation that starts exactly at `ptr`: the
/// earliest recorded `(start, len)` pair whose start is `ptr`.
#[verifier::loop_isolation(false)]
pub fn find_buffer(buffers: &Vec<(usize, usize)>, ptr: usize) -> (r: Option<(usize, usize)>)
    ensures
        r is Some <==> exists|i: int|
            0 <= i < buffers@.len() && (#[trigger] buffers@[i]).0 == ptr,
        r is Some ==> exists|i: int|
            0 <= i < buffers@.len() && #[trigger] buffers@[i] == r.unwrap() && buffers@[i].0
                == ptr,
{
    let n = buffers.len();
    let mut i: usize = 0;
    while i < n
        invariant
            i <= n,
            forall|k: int| 0 <= k < i ==> (#[trigger] buffers@[k]).0 != ptr,
        decreases n - i,
    {
        if buffers[i].0 == ptr {
            return Some(buffers[i]);
        }
        i += 1;
    }
    None
}

} // verus!
