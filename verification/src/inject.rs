//! The pure computations of the process-injection launcher: building the
//! wide-character command line for the child process under the Windows
//! quoting rules, and the redirector/injected library paths handed to the
//! child. Process creation itself stays with the caller.

use vstd::prelude::*;
use vstd::string::StringSliceAdditionalSpecFns;

verus! {

/// The name of the redirector library placed beside the launcher.
pub const REDIRECT_DLL: &'static str = "zluda_redirect.dll";

/// The name of the replacement driver library placed beside the launcher.
pub const ZLUDA_DLL: &'static str = "nvcuda.dll";

/// The UTF-16 units one character encodes to: one unit inside the basic
/// plane, a surrogate pair above it.
pub open spec fn char_utf16(c: char) -> Seq<u16> {
    let u = c as u32;
    if u < 0x10000 {
        seq![u as u16]
    } else {
        seq![
            (0xd800 + ((u - 0x10000) / 0x400)) as u16,
            (0xdc00 + ((u - 0x10000) % 0x400)) as u16,
        ]
    }
}

/// The UTF-16 units of a character sequence.
pub open spec fn utf16_of(s: Seq<char>) -> Seq<u16>
    decreases s.len(),
{
    if s.len() == 0 {
        Seq::<u16>::empty()
    } else {
        utf16_of(s.drop_last()) + char_utf16(s.last())
    }
}

/// Appends the UTF-16 units of one character.
fn push_char_utf16(out: &mut Vec<u16>, c: char)
    ensures
        final(out)@ == old(out)@ + char_utf16(c),
{
    let u = c as u32;
    if u < 0x10000 {
        out.push(#[verifier::truncate] (u as u16));
    } else {
        out.push(#[verifier::truncate] ((0xd800 + ((u - 0x10000) / 0x400)) as u16));
        out.push(#[verifier::truncate] ((0xdc00 + ((u - 0x10000) % 0x400)) as u16));
    }
    proof {
        assert(final(out)@ =~= old(out)@ + char_utf16(c));
    }
}

/// Appends the UTF-16 units of a string.
#[verifier::loop_isolation(false)]
fn append_utf16(out: &mut Vec<u16>, s: &str)
    ensures
        final(out)@ == old(out)@ + utf16_of(s@),
{
    let n = s.unicode_len();
    let mut i: usize = 0;
    while i < n
        invariant
            i <= n,
            n == s@.len(),
            out@ == old(out)@ + utf16_of(s@.take(i as int)),
        decreases n - i,
    {
        let ghost pre = s@.take(i as int);
        proof {
            assert(s@.take(i + 1).drop_last() =~= pre);
            assert(s@.take(i + 1).last() == s@[i as int]);
        }
        let c = s.get_char(i);
        push_char_utf16(out, c);
        i += 1;
    }
    proof {
        assert(s@.take(n as int) =~= s@);
    }
}

/// Characters that force an argument to be quoted on a command line.
pub open spec fn is_special(c: char) -> bool {
    c == ' ' || c == '\t' || c == '\n' || c == '\u{2B7F}' || c == '"'
}

/// Whether an argument must be quoted.
pub open spec fn spec_needs_quoting(s: Seq<char>) -> bool {
    exists|i: int| 0 <= i < s.len() && is_special(#[trigger] s[i])
}

/// Whether an argument must be quoted.
#[verifier::loop_isolation(false)]
fn needs_quoting(s: &str) -> (r: bool)
    ensures
        r == spec_needs_quoting(s@),
{
    let n = s.unicode_len();
    let mut i: usize = 0;
    while i < n
        invariant
            i <= n,
            n == s@.len(),
            forall|k: int| 0 <= k < i ==> !is_special(#[trigger] s@[k]),
        decreases n - i,
    {
        let c = s.get_char(i);
        if c == ' ' || c == '\t' || c == '\n' || c == '\u{2B7F}' || c == '"' {
            proof {
                assert(is_special(s@[i as int]));
            }
            return true;
        }
        i += 1;
    }
    false
}

/// The length of the backslash run starting at `i`.
pub open spec fn bs_run(s: Seq<char>, i: int) -> nat
    decreases s.len() - i,
{
    if i < 0 || i >= s.len() {
        0
    } else if s[i] != '\\' {
        0
    } else {
        1 + bs_run(s, i + 1)
    }
}

/// `n` backslash units.
pub open spec fn backslash_units(n: nat) -> Seq<u16> {
    Seq::<u16>::new(n, |k: int| 92u16)
}

/// The quoted body of an argument from position `i` on: a backslash run
/// before the closing quote or an embedded quote is doubled (the embedded
/// quote gaining one more backslash and staying), and a run before any
/// other character is kept as it is.
pub open spec fn quote_tail(s: Seq<char>, i: int) -> Seq<u16>
    decreases s.len() - i,
{
    if i < 0 || i >= s.len() {
        Seq::<u16>::empty()
    } else {
        let b = bs_run(s, i);
        let j = i + b;
        if j >= s.len() {
            backslash_units((2 * b) as nat)
        } else if s[j] == '"' {
            backslash_units((2 * b + 1) as nat) + seq![34u16] + quote_tail(s, j + 1)
        } else {
            backslash_units(b) + char_utf16(s[j]) + quote_tail(s, j + 1)
        }
    }
}

/// An argument in quotes, under the Windows command-line convention.
pub open spec fn spec_quoted_arg(s: Seq<char>) -> Seq<u16> {
    seq![34u16] + quote_tail(s, 0) + seq![34u16]
}

/// The units one argument contributes: verbatim without special
/// characters, quoted with them.
pub open spec fn arg_units(s: Seq<char>) -> Seq<u16> {
    if spec_needs_quoting(s) {
        spec_quoted_arg(s)
    } else {
        utf16_of(s)
    }
}

/// The command line of the first `i` of `total` arguments: each argument's
/// units, with a separating space after every argument but the last.
pub open spec fn command_prefix(args: Seq<String>, i: int, total: int) -> Seq<u16>
    decreases i,
{
    if i <= 0 {
        Seq::<u16>::empty()
    } else {
        command_prefix(args, i - 1, total) + arg_units(args[i - 1]@) + (if i < total {
            seq![32u16]
        } else {
            Seq::<u16>::empty()
        })
    }
}

/// The whole command line: every argument, space-separated, and the
/// terminating zero.
pub open spec fn spec_command_line(args: Seq<String>) -> Seq<u16> {
    command_prefix(args, args.len() as int, args.len() as int) + seq![0u16]
}

/// Appends `count` backslash units.
fn push_backslashes(out: &mut Vec<u16>, count: usize)
    ensures
        final(out)@ == old(out)@ + backslash_units(count as nat),
{
    let mut k: usize = 0;
    while k < count
        invariant
            k <= count,
            out@ == old(out)@ + backslash_units(k as nat),
        decreases count - k,
    {
        out.push(92);
        proof {
            assert(out@ =~= old(out)@ + backslash_units((k + 1) as nat));
        }
        k += 1;
    }
}

/// Appends one argument in quotes, doubling backslash runs before quotes
/// and before the closing quote, and escaping embedded quotes, as the
/// Windows command-line convention demands; the result is exactly
/// `spec_quoted_arg`.
#[verifier::loop_isolation(false)]
fn append_quoted(out: &mut Vec<u16>, s: &str)
    ensures
        final(out)@ == old(out)@ + spec_quoted_arg(s@),
{
    out.push(34);
    let n = s.unicode_len();
    let mut i: usize = 0;
    while i < n
        invariant
            i <= n,
            n == s@.len(),
            out@ + quote_tail(s@, i as int) == old(out)@ + seq![34u16] + quote_tail(s@, 0),
        decreases n - i,
    {
        // count the backslash run starting here
        let ghost i0 = i;
        let mut bs: usize = 0;
        while i < n && s.get_char(i) == '\\'
            invariant
                i0 <= i <= n,
                i == i0 + bs,
                bs_run(s@, i0 as int) == bs + bs_run(s@, i as int),
            decreases n - i,
        {
            bs += 1;
            i += 1;
        }
        proof {
            assert(bs_run(s@, i as int) == 0);
            assert(bs == bs_run(s@, i0 as int));
        }
        if i == n {
            // a run at the end is doubled so the closing quote stays a
            // quote
            let ghost before = out@;
            push_backslashes(out, bs);
            push_backslashes(out, bs);
            proof {
                assert(quote_tail(s@, i0 as int) =~= backslash_units((2 * bs) as nat));
                assert(out@ =~= before + quote_tail(s@, i0 as int));
                assert(out@ + quote_tail(s@, n as int) =~= old(out)@ + seq![34u16] + quote_tail(
                    s@,
                    0,
                ));
            }
            break ;
        }
        let c = s.get_char(i);
        let ghost before = out@;
        if c == '"' {
            push_backslashes(out, bs);
            push_backslashes(out, bs);
            out.push(92);
            out.push(34);
            proof {
                assert(quote_tail(s@, i0 as int) =~= backslash_units((2 * bs + 1) as nat)
                    + seq![34u16] + quote_tail(s@, i + 1));
                assert(out@ =~= before + backslash_units((2 * bs + 1) as nat) + seq![34u16]);
                assert(out@ + quote_tail(s@, i + 1) =~= old(out)@ + seq![34u16] + quote_tail(
                    s@,
                    0,
                ));
            }
        } else {
            push_backslashes(out, bs);
            push_char_utf16(out, c);
            proof {
                assert(quote_tail(s@, i0 as int) =~= backslash_units(bs as nat) + char_utf16(
                    s@[i as int],
                ) + quote_tail(s@, i + 1));
                assert(out@ =~= before + backslash_units(bs as nat) + char_utf16(s@[i as int]));
                assert(out@ + quote_tail(s@, i + 1) =~= old(out)@ + seq![34u16] + quote_tail(
                    s@,
                    0,
                ));
            }
        }
        i += 1;
    }
    out.push(34);
    proof {
        assert(final(out)@ =~= old(out)@ + spec_quoted_arg(s@));
    }
}

/// Builds the child's command line from its arguments: arguments without
/// special characters are copied as they are, the others are quoted under
/// the Windows rules, arguments are separated by single spaces, and the
/// line ends with a terminating zero; the line is exactly
/// `spec_command_line` of the arguments.
#[verifier::loop_isolation(false)]
pub fn construct_command_line(args: &Vec<String>) -> (r: Vec<u16>)
    ensures
        r@ == spec_command_line(args@),
        r@.len() >= 1,
        r@.last() == 0,
{
    let mut out: Vec<u16> = Vec::new();
    let total = args.len();
    let mut idx: usize = 0;
    while idx < total
        invariant
            idx <= total,
            total == args@.len(),
            out@ == command_prefix(args@, idx as int, total as int),
        decreases total - idx,
    {
        let arg = &args[idx];
        if !needs_quoting(arg.as_str()) {
            append_utf16(&mut out, arg.as_str());
        } else {
            proof {
                assert(spec_needs_quoting(args@[idx as int]@));
            }
            append_quoted(&mut out, arg.as_str());
        }
        if idx < total - 1 {
            out.push(32);
        }
        proof {
            assert(out@ =~= command_prefix(args@, idx + 1, total as int));
        }
        idx += 1;
    }
    out.push(0);
    proof {
        assert(out@ =~= spec_command_line(args@));
    }
    out
}

/// A directory joined with a file name under a backslash separator; a
/// directory already ending in a separator gets no second one.
pub open spec fn joined_path(dir: Seq<char>, file: Seq<char>) -> Seq<char> {
    if dir.len() > 0 && dir.last() == '\\' {
        dir + file
    } else {
        dir + seq!['\\'] + file
    }
}

/// Appends a string's characters to another.
fn append_str(out: &mut String, s: &str)
    ensures
        final(out)@ == old(out)@ + s@,
{
    out.append(s);
}

/// Joins the launcher's directory with a file name beside it.
fn join_dir_file(dir: &str, file: &str) -> (r: String)
    ensures
        r@ == joined_path(dir@, file@),
{
    let mut out = dir.to_owned();
    let n = dir.unicode_len();
    let needs_sep = if n == 0 {
        true
    } else {
        dir.get_char(n - 1) != '\\'
    };
    if needs_sep {
        append_str(&mut out, "\\");
        proof {
            reveal_strlit("\\");
        }
    }
    append_str(&mut out, file);
    proof {
        assert(out@ =~= joined_path(dir@, file@));
    }
    out
}

/// The path of the redirector library beside the launcher, as bytes with a
/// terminating zero: exactly the UTF-8 bytes of the launcher directory
/// joined with the redirector's file name, plus the one zero.
pub fn create_redirect_path(injector_dir: &str) -> (r: Vec<u8>)
    ensures
        r@ == vstd::utf8::encode_utf8(joined_path(injector_dir@, REDIRECT_DLL@)) + seq![0u8],
        r@.len() > 0,
        r@.last() == 0,
{
    let joined = join_dir_file(injector_dir, REDIRECT_DLL);
    let joined_str = joined.as_str();
    let bytes = joined_str.as_bytes();
    let mut out: Vec<u8> = Vec::new();
    let n = bytes.len();
    let mut i: usize = 0;
    while i < n
        invariant
            i <= n,
            n == bytes@.len(),
            out@ == bytes@.take(i as int),
        decreases n - i,
    {
        out.push(bytes[i]);
        proof {
            assert(out@ =~= bytes@.take(i + 1));
        }
        i += 1;
    }
    out.push(0);
    proof {
        assert(bytes@.take(n as int) =~= bytes@);
        assert(out@ =~= vstd::utf8::encode_utf8(joined_path(injector_dir@, REDIRECT_DLL@))
            + seq![0u8]);
    }
    out
}

/// Splits the launcher's arguments into the library to inject and the
/// child command. A bare `--` first injects the driver library beside the
/// launcher and the child command starts after it; a named library before
/// a `--` is injected itself and the child command starts after both;
/// anything else is a usage error. The injected path comes as UTF-16 with
/// a terminating zero, together with the index where the child's own
/// arguments start.
pub fn create_inject_path(args: &Vec<String>, injector_dir: &str) -> (r: Option<(Vec<u16>, usize)>)
    ensures
        r is Some <==> (args@.len() >= 1 && args@[0]@ == "--"@) || (args@.len() >= 2 && args@[1]@
            == "--"@),
        args@.len() >= 1 && args@[0]@ == "--"@ ==> r is Some && r.unwrap().0@ == utf16_of(
            joined_path(injector_dir@, ZLUDA_DLL@),
        ) + seq![0u16] && r.unwrap().1 == 1,
        !(args@.len() >= 1 && args@[0]@ == "--"@) && args@.len() >= 2 && args@[1]@ == "--"@ ==> r
            is Some && r.unwrap().0@ == utf16_of(args@[0]@) + seq![0u16] && r.unwrap().1 == 2,
        r is Some ==> r.unwrap().0@.len() > 0 && r.unwrap().0@.last() == 0 && r.unwrap().1
            <= args@.len(),
{
    let dashes = "--";
    if args.len() >= 1 && str_is(args[0].as_str(), dashes) {
        let path = join_dir_file(injector_dir, ZLUDA_DLL);
        let mut out: Vec<u16> = Vec::new();
        append_utf16(&mut out, path.as_str());
        out.push(0);
        proof {
            assert(out@ =~= utf16_of(joined_path(injector_dir@, ZLUDA_DLL@)) + seq![0u16]);
        }
        Some((out, 1))
    } else if args.len() >= 2 && str_is(args[1].as_str(), dashes) {
        let mut out: Vec<u16> = Vec::new();
        append_utf16(&mut out, args[0].as_str());
        out.push(0);
        proof {
            assert(out@ =~= utf16_of(args@[0]@) + seq![0u16]);
        }
        Some((out, 2))
    } else {
        None
    }
}

/// Character-for-character equality of two strings.
#[verifier::loop_isolation(false)]
fn str_is(a: &str, b: &str) -> (r: bool)
    ensures
        r == (a@ == b@),
{
    let na = a.unicode_len();
    let nb = b.unicode_len();
    if na != nb {
        return false;
    }
    let mut i: usize = 0;
    while i < na
        invariant
            i <= na,
            na == a@.len() == b@.len(),
            forall|k: int| 0 <= k < i ==> a@[k] == b@[k],
        decreases na - i,
    {
        if a.get_char(i) != b.get_char(i) {
            return false;
        }
        i += 1;
    }
    proof {
        assert(a@ =~= b@);
    }
    true
}

} // verus!
