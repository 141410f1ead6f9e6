//! Lexing and parsing of PTX source text into the abstract syntax tree.
//! The parser accumulates syntax errors in a collector passed by reference
//! and keeps parsing after a local failure, so one attempt reports every
//! problem it can find; it hands back a module only when the collector
//! gained no entry, since any syntax error invalidates the tree.

use vstd::prelude::*;
use vstd::string::StringSliceAdditionalSpecFns;

use crate::ast::AddressOperand;
use crate::ast::AtomOp;
use crate::ast::BitOp;
use crate::ast::CmpOp;
use crate::ast::Comparison;
use crate::ast::Directive;
use crate::ast::Instruction;
use crate::ast::KernelParam;
use crate::ast::MathOp;
use crate::ast::MethodDecl;
use crate::ast::Operand;
use crate::ast::PredAt;
use crate::ast::PtxFunction;
use crate::ast::PtxModule;
use crate::ast::RoundingMode;
use crate::ast::ScalarType;
use crate::ast::StateSpace;
use crate::ast::Statement;
use crate::ast::Type;
use crate::ast::VariableDecl;

verus! {

/// What went wrong at one place in the source text.
#[derive(Clone, Copy, PartialEq, Eq, Structural, Debug)]
pub enum SyntaxErrorKind {
    /// A byte that cannot start any token, or a non-ASCII byte.
    UnexpectedCharacter,
    /// A numeric literal that is malformed or out of range.
    BadNumber,
    /// A token that the grammar does not allow at this position.
    UnexpectedToken,
    /// The text ended in the middle of a construct.
    UnexpectedEnd,
    /// The module header (version, target, address size) is malformed.
    BadHeader,
    /// An opcode that the grammar does not know.
    UnknownOpcode,
    /// A modifier or type suffix that does not fit the opcode.
    BadModifier,
}

/// One syntax diagnostic: its kind and the byte offset it refers to.
#[derive(Clone, Copy, PartialEq, Eq, Structural, Debug)]
pub struct SyntaxError {
    pub kind: SyntaxErrorKind,
    pub offset: usize,
}

/// One lexical token.
#[derive(Clone, PartialEq, Eq)]
pub enum TokKind {
    /// `.name` — a directive or a dotted instruction modifier.
    Directive(String),
    /// A plain identifier.
    Ident(String),
    /// `%name` — a register reference, stored with its `%`.
    Reg(String),
    /// An unsigned integer literal.
    Num(u64),
    /// A hex-float literal `0f...`/`0d...`: the raw bits and whether the
    /// literal was 64 bits wide.
    FloatBits(u64, bool),
    LBrace,
    RBrace,
    LParen,
    RParen,
    LBracket,
    RBracket,
    Comma,
    Semi,
    Colon,
    At,
    Bang,
    Plus,
    Minus,
    Lt,
    Gt,
    Dot,
}

/// A token with the byte offset where it starts.
pub struct Token {
    pub kind: TokKind,
    pub offset: usize,
}

/// Bytes that may start an identifier.
pub open spec fn spec_is_ident_start(b: u8) -> bool {
    (b >= 97 && b <= 122) || (b >= 65 && b <= 90) || b == 95 || b == 36
}

/// Bytes that may continue an identifier.
pub open spec fn spec_is_ident_byte(b: u8) -> bool {
    spec_is_ident_start(b) || (b >= 48 && b <= 57)
}

/// True for bytes that may start an identifier.
fn is_ident_start(b: u8) -> (r: bool)
    ensures
        r == spec_is_ident_start(b),
{
    (b >= 97 && b <= 122) || (b >= 65 && b <= 90) || b == 95 || b == 36
}

/// True for bytes that may continue an identifier.
fn is_ident_byte(b: u8) -> (r: bool)
    ensures
        r == spec_is_ident_byte(b),
{
    is_ident_start(b) || (b >= 48 && b <= 57)
}

/// True for decimal digit bytes.
fn is_digit(b: u8) -> (r: bool)
    ensures
        r == (b >= 48 && b <= 57),
{
    b >= 48 && b <= 57
}

/// The value of a hex digit byte, if it is one.
fn hex_value(b: u8) -> (r: Option<u8>)
    ensures
        r is Some ==> r.unwrap() < 16,
{
    if b >= 48 && b <= 57 {
        Some(b - 48)
    } else if b >= 97 && b <= 102 {
        Some(b - 97 + 10)
    } else if b >= 65 && b <= 70 {
        Some(b - 65 + 10)
    } else {
        None
    }
}

/// Scans an identifier starting at `start`; returns the index one past its
/// end.
fn scan_ident_end(bytes: &[u8], start: usize) -> (end: usize)
    requires
        start < bytes@.len(),
    ensures
        start <= end <= bytes@.len(),
        spec_is_ident_byte(bytes@[start as int]) ==> end > start,
{
    let n = bytes.len();
    let mut i = start;
    while i < n
        invariant
            start <= i <= n,
            n == bytes@.len(),
            i == start || i > start,
        decreases n - i,
    {
        if !is_ident_byte(bytes[i]) {
            return i;
        }
        i += 1;
    }
    i
}

/// Reads the decimal number starting at `start`. Returns the value and the
/// index one past its end, or fails when the value would not fit in 64 bits.
fn scan_decimal(bytes: &[u8], start: usize) -> (r: Result<(u64, usize), ()>)
    requires
        start < bytes@.len(),
    ensures
        r is Ok ==> start <= r.unwrap().1 <= bytes@.len(),
{
    let n = bytes.len();
    let mut i = start;
    let mut acc: u64 = 0;
    while i < n
        invariant
            start <= i <= n,
            n == bytes@.len(),
        decreases n - i,
    {
        let b = bytes[i];
        if !is_digit(b) {
            return Ok((acc, i));
        }
        let d = (b - 48) as u64;
        if acc > 1844674407370955161 || (acc == 1844674407370955161 && d > 5) {
            // the next digit would not fit in 64 bits
            return Err(());
        }
        acc = acc * 10 + d;
        i += 1;
    }
    Ok((acc, i))
}

/// Reads exactly `count` hex digits starting at `start`; returns the value
/// and the index one past the last digit.
fn scan_hex_exact(bytes: &[u8], start: usize, count: usize) -> (r: Result<(u64, usize), ()>)
    requires
        count <= 16,
    ensures
        r is Ok ==> start <= r.unwrap().1 <= bytes@.len(),
{
    let n = bytes.len();
    if start > n {
        return Err(());
    }
    let mut i = start;
    let mut acc: u64 = 0;
    let mut seen: usize = 0;
    while seen < count
        invariant
            start <= i,
            i <= n,
            n == bytes@.len(),
            seen <= count,
            count <= 16,
        decreases count - seen,
    {
        if i >= n {
            return Err(());
        }
        let d = match hex_value(bytes[i]) {
            Some(d) => d,
            None => {
                return Err(());
            },
        };
        acc = (acc << 4) | (d as u64);
        i += 1;
        seen += 1;
    }
    Ok((acc, i))
}

/// Reads hex digits starting at `start` (at least one); returns the value
/// and the index one past the last digit, failing on overflow or when no
/// digit is present.
fn scan_hex(bytes: &[u8], start: usize) -> (r: Result<(u64, usize), ()>)
    ensures
        r is Ok ==> start <= r.unwrap().1 <= bytes@.len(),
{
    let n = bytes.len();
    if start > n {
        return Err(());
    }
    let mut i = start;
    let mut acc: u64 = 0;
    let mut seen: usize = 0;
    while i < n
        invariant
            start <= i <= n,
            n == bytes@.len(),
        decreases n - i,
    {
        let d = match hex_value(bytes[i]) {
            Some(d) => d,
            None => {
                break ;
            },
        };
        if seen >= 16 {
            return Err(());
        }
        acc = (acc << 4) | (d as u64);
        i += 1;
        seen += 1;
    }
    if seen == 0 {
        Err(())
    } else {
        Ok((acc, i))
    }
}

/// Finds the start of the first `*/` at or after `start`.
fn find_block_comment_end(bytes: &[u8], start: usize) -> (r: Option<usize>)
    ensures
        r is Some ==> start <= r.unwrap() && r.unwrap() + 2 <= bytes@.len(),
{
    let n = bytes.len();
    if start >= n {
        return None;
    }
    let mut j = start;
    while j < n - 1
        invariant
            start <= j <= n,
            1 <= n == bytes@.len(),
        decreases n - j,
    {
        if bytes[j] == 42 && bytes[j + 1] == 47 {
            return Some(j);
        }
        j += 1;
    }
    None
}

/// Splits ASCII source text into tokens. Comments (`//` to end of line and
/// `/* */`) and whitespace separate tokens and are dropped. A byte that
/// cannot start a token, an unterminated comment or a malformed number is a
/// syntax error at its offset.
#[verifier::loop_isolation(false)]
fn tokenize(text: &str, errors: &mut Vec<SyntaxError>) -> (toks: Vec<Token>)
    requires
        text.is_ascii(),
    ensures
        final(errors)@.len() >= old(errors)@.len(),
        forall|k: int|
            0 <= k < old(errors)@.len() ==> final(errors)@[k] == #[trigger] old(errors)@[k],
{
    let bytes = text.as_bytes();
    let n = bytes.len();
    let mut toks: Vec<Token> = Vec::new();
    let mut i: usize = 0;
    while i < n
        invariant
            i <= n,
            n == bytes@.len(),
            n == text@.len(),
            text.is_ascii(),
            errors@.len() >= old(errors)@.len(),
            forall|k: int|
                0 <= k < old(errors)@.len() ==> errors@[k] == #[trigger] old(errors)@[k],
        decreases n - i,
    {
        let b = bytes[i];
        // whitespace
        if b == 32 || b == 9 || b == 10 || b == 13 {
            i += 1;
            continue ;
        }
        // comments
        if b == 47 && i + 1 < n && bytes[i + 1] == 47 {
            let mut j = i + 2;
            while j < n && bytes[j] != 10
                invariant
                    i + 2 <= j <= n,
                decreases n - j,
            {
                j += 1;
            }
            i = j;
            continue ;
        }
        if b == 47 && i + 1 < n && bytes[i + 1] == 42 {
            match find_block_comment_end(bytes, i + 2) {
                Some(j) => {
                    i = j + 2;
                },
                None => {
                    errors.push(SyntaxError { kind: SyntaxErrorKind::UnexpectedEnd, offset: i });
                    return toks;
                },
            }
            continue ;
        }
        // directives and dotted modifiers
        if b == 46 {
            if i + 1 < n && is_ident_start(bytes[i + 1]) {
                let end = scan_ident_end(bytes, i + 1);
                let name = text.substring_ascii(i + 1, end).to_owned();
                toks.push(Token { kind: TokKind::Directive(name), offset: i });
                i = end;
            } else {
                toks.push(Token { kind: TokKind::Dot, offset: i });
                i += 1;
            }
            continue ;
        }
        // register references
        if b == 37 {
            if i + 1 < n && is_ident_byte(bytes[i + 1]) {
                let end = scan_ident_end(bytes, i + 1);
                let name = text.substring_ascii(i, end).to_owned();
                toks.push(Token { kind: TokKind::Reg(name), offset: i });
                i = end;
            } else {
                errors.push(SyntaxError { kind: SyntaxErrorKind::UnexpectedCharacter, offset: i });
                i += 1;
            }
            continue ;
        }
        // identifiers
        if is_ident_start(b) {
            let end = scan_ident_end(bytes, i);
            let name = text.substring_ascii(i, end).to_owned();
            toks.push(Token { kind: TokKind::Ident(name), offset: i });
            i = end;
            continue ;
        }
        // numbers: decimal, hex, and the 0f/0d raw-bit float forms
        if is_digit(b) {
            if b == 48 && i + 1 < n && (bytes[i + 1] == 102 || bytes[i + 1] == 70) {
                // 0f: 32-bit float given as 8 hex digits
                match scan_hex_exact(bytes, i + 2, 8) {
                    Ok((v, end)) => {
                        toks.push(Token { kind: TokKind::FloatBits(v, false), offset: i });
                        i = end;
                    },
                    Err(()) => {
                        errors.push(SyntaxError { kind: SyntaxErrorKind::BadNumber, offset: i });
                        i += 1;
                    },
                }
                continue ;
            }
            if b == 48 && i + 1 < n && (bytes[i + 1] == 100 || bytes[i + 1] == 68) {
                // 0d: 64-bit float given as 16 hex digits
                match scan_hex_exact(bytes, i + 2, 16) {
                    Ok((v, end)) => {
                        toks.push(Token { kind: TokKind::FloatBits(v, true), offset: i });
                        i = end;
                    },
                    Err(()) => {
                        errors.push(SyntaxError { kind: SyntaxErrorKind::BadNumber, offset: i });
                        i += 1;
                    },
                }
                continue ;
            }
            if b == 48 && i + 1 < n && (bytes[i + 1] == 120 || bytes[i + 1] == 88) {
                match scan_hex(bytes, i + 2) {
                    Ok((v, end)) => {
                        let mut end2 = end;
                        if end2 < n && (bytes[end2] == 85 || bytes[end2] == 117) {
                            end2 += 1;
                        }
                        toks.push(Token { kind: TokKind::Num(v), offset: i });
                        i = end2;
                    },
                    Err(()) => {
                        errors.push(SyntaxError { kind: SyntaxErrorKind::BadNumber, offset: i });
                        i += 1;
                    },
                }
                continue ;
            }
            match scan_decimal(bytes, i) {
                Ok((v, end)) => {
                    let mut end2 = end;
                    if end2 < n && (bytes[end2] == 85 || bytes[end2] == 117) {
                        end2 += 1;
                    }
                    toks.push(Token { kind: TokKind::Num(v), offset: i });
                    i = if end2 > i {
                        end2
                    } else {
                        i + 1
                    };
                },
                Err(()) => {
                    errors.push(SyntaxError { kind: SyntaxErrorKind::BadNumber, offset: i });
                    i += 1;
                },
            }
            continue ;
        }
        let kind = match b {
            123u8 => Some(TokKind::LBrace),
            125u8 => Some(TokKind::RBrace),
            40u8 => Some(TokKind::LParen),
            41u8 => Some(TokKind::RParen),
            91u8 => Some(TokKind::LBracket),
            93u8 => Some(TokKind::RBracket),
            44u8 => Some(TokKind::Comma),
            59u8 => Some(TokKind::Semi),
            58u8 => Some(TokKind::Colon),
            64u8 => Some(TokKind::At),
            33u8 => Some(TokKind::Bang),
            43u8 => Some(TokKind::Plus),
            45u8 => Some(TokKind::Minus),
            60u8 => Some(TokKind::Lt),
            62u8 => Some(TokKind::Gt),
            _ => None,
        };
        match kind {
            Some(k) => {
                toks.push(Token { kind: k, offset: i });
            },
            None => {
                errors.push(SyntaxError { kind: SyntaxErrorKind::UnexpectedCharacter, offset: i });
            },
        }
        i += 1;
    }
    toks
}

/// Reads the token at `pos`.
fn peek<'a>(toks: &'a Vec<Token>, pos: usize) -> (r: Option<&'a Token>)
    ensures
        r is Some <==> pos < toks@.len(),
{
    if pos < toks.len() {
        Some(&toks[pos])
    } else {
        None
    }
}

/// The byte offset to blame at `pos`: the token there, or zero past the end.
fn offset_at(toks: &Vec<Token>, pos: usize) -> (r: usize) {
    if pos < toks.len() {
        toks[pos].offset
    } else {
        0
    }
}

/// Builds a syntax error pointing at the token at `pos`.
fn err_at(toks: &Vec<Token>, pos: usize, kind: SyntaxErrorKind) -> (r: SyntaxError) {
    SyntaxError { kind, offset: offset_at(toks, pos) }
}

/// Consumes one identifier token.
fn take_ident(toks: &Vec<Token>, pos: &mut usize) -> (r: Result<String, SyntaxError>)
    requires
        *old(pos) <= toks@.len(),
    ensures
        *old(pos) <= *final(pos) <= toks@.len(),
        r is Ok ==> *final(pos) == *old(pos) + 1,
        r is Err ==> *final(pos) == *old(pos),
{
    if *pos < toks.len() {
        match &toks[*pos].kind {
            TokKind::Ident(name) => {
                let out = name.clone();
                *pos += 1;
                Ok(out)
            },
            _ => Err(err_at(toks, *pos, SyntaxErrorKind::UnexpectedToken)),
        }
    } else {
        Err(err_at(toks, *pos, SyntaxErrorKind::UnexpectedEnd))
    }
}

/// Consumes one register token.
fn take_reg(toks: &Vec<Token>, pos: &mut usize) -> (r: Result<String, SyntaxError>)
    requires
        *old(pos) <= toks@.len(),
    ensures
        *old(pos) <= *final(pos) <= toks@.len(),
        r is Ok ==> *final(pos) == *old(pos) + 1,
        r is Err ==> *final(pos) == *old(pos),
{
    if *pos < toks.len() {
        match &toks[*pos].kind {
            TokKind::Reg(name) => {
                let out = name.clone();
                *pos += 1;
                Ok(out)
            },
            _ => Err(err_at(toks, *pos, SyntaxErrorKind::UnexpectedToken)),
        }
    } else {
        Err(err_at(toks, *pos, SyntaxErrorKind::UnexpectedEnd))
    }
}

/// Consumes one number token.
fn take_num(toks: &Vec<Token>, pos: &mut usize) -> (r: Result<u64, SyntaxError>)
    requires
        *old(pos) <= toks@.len(),
    ensures
        *old(pos) <= *final(pos) <= toks@.len(),
        r is Ok ==> *final(pos) == *old(pos) + 1,
        r is Err ==> *final(pos) == *old(pos),
{
    if *pos < toks.len() {
        match &toks[*pos].kind {
            TokKind::Num(v) => {
                let out = *v;
                *pos += 1;
                Ok(out)
            },
            _ => Err(err_at(toks, *pos, SyntaxErrorKind::UnexpectedToken)),
        }
    } else {
        Err(err_at(toks, *pos, SyntaxErrorKind::UnexpectedEnd))
    }
}

/// Consumes one directive token, returning its name.
fn take_directive(toks: &Vec<Token>, pos: &mut usize) -> (r: Result<String, SyntaxError>)
    requires
        *old(pos) <= toks@.len(),
    ensures
        *old(pos) <= *final(pos) <= toks@.len(),
        r is Ok ==> *final(pos) == *old(pos) + 1,
        r is Err ==> *final(pos) == *old(pos),
{
    if *pos < toks.len() {
        match &toks[*pos].kind {
            TokKind::Directive(name) => {
                let out = name.clone();
                *pos += 1;
                Ok(out)
            },
            _ => Err(err_at(toks, *pos, SyntaxErrorKind::UnexpectedToken)),
        }
    } else {
        Err(err_at(toks, *pos, SyntaxErrorKind::UnexpectedEnd))
    }
}

/// True when the token at `pos` is the given punctuation, which five of the
/// parsers below consume unconditionally.
fn peek_is_punct(toks: &Vec<Token>, pos: usize, which: u8) -> (r: bool)
    ensures
        r ==> pos < toks.len() && pos < toks@.len(),
{
    if pos < toks.len() {
        match &toks[pos].kind {
            TokKind::LBrace => which == 0,
            TokKind::RBrace => which == 1,
            TokKind::LParen => which == 2,
            TokKind::RParen => which == 3,
            TokKind::LBracket => which == 4,
            TokKind::RBracket => which == 5,
            TokKind::Comma => which == 6,
            TokKind::Semi => which == 7,
            TokKind::Colon => which == 8,
            TokKind::At => which == 9,
            TokKind::Bang => which == 10,
            TokKind::Plus => which == 11,
            TokKind::Minus => which == 12,
            TokKind::Lt => which == 13,
            TokKind::Gt => which == 14,
            TokKind::Dot => which == 15,
            _ => false,
        }
    } else {
        false
    }
}

/// Consumes the given punctuation token or fails without consuming.
fn expect_punct(toks: &Vec<Token>, pos: &mut usize, which: u8) -> (r: Result<(), SyntaxError>)
    requires
        *old(pos) <= toks@.len(),
    ensures
        *old(pos) <= *final(pos) <= toks@.len(),
        r is Ok ==> *final(pos) == *old(pos) + 1,
        r is Err ==> *final(pos) == *old(pos),
{
    if *pos >= toks.len() {
        return Err(err_at(toks, *pos, SyntaxErrorKind::UnexpectedEnd));
    }
    if peek_is_punct(toks, *pos, which) {
        *pos += 1;
        Ok(())
    } else {
        Err(err_at(toks, *pos, SyntaxErrorKind::UnexpectedToken))
    }
}

/// True when the token at `pos` is a directive with the given name.
fn peek_is_directive(toks: &Vec<Token>, pos: usize, name: &str) -> (r: bool)
    ensures
        r ==> pos < toks.len() && pos < toks@.len(),
{
    if pos < toks.len() {
        match &toks[pos].kind {
            TokKind::Directive(d) => str_eq(d.as_str(), name),
            _ => false,
        }
    } else {
        false
    }
}

/// Byte-for-byte equality of two ASCII strings.
fn str_eq(a: &str, b: &str) -> (r: bool)
    ensures
        r == (a.spec_bytes() == b.spec_bytes()),
{
    let ab = a.as_bytes();
    let bb = b.as_bytes();
    if ab.len() != bb.len() {
        proof {
            assert(a.spec_bytes().len() != b.spec_bytes().len());
        }
        return false;
    }
    let n = ab.len();
    let mut i: usize = 0;
    while i < n
        invariant
            i <= n,
            n == ab@.len() == bb@.len(),
            ab@ == a.spec_bytes(),
            bb@ == b.spec_bytes(),
            forall|k: int| 0 <= k < i ==> ab@[k] == bb@[k],
        decreases n - i,
    {
        if ab[i] != bb[i] {
            proof {
                assert(a.spec_bytes()[i as int] != b.spec_bytes()[i as int]);
            }
            return false;
        }
        i += 1;
    }
    proof {
        assert(a.spec_bytes() =~= b.spec_bytes());
    }
    true
}

/// The scalar type named by a modifier such as `u64` or `f32`.
fn scalar_type_of(name: &str) -> (r: Option<ScalarType>) {
    if str_eq(name, "b8") {
        Some(ScalarType::B8)
    } else if str_eq(name, "b16") {
        Some(ScalarType::B16)
    } else if str_eq(name, "b32") {
        Some(ScalarType::B32)
    } else if str_eq(name, "b64") {
        Some(ScalarType::B64)
    } else if str_eq(name, "u8") {
        Some(ScalarType::U8)
    } else if str_eq(name, "u16") {
        Some(ScalarType::U16)
    } else if str_eq(name, "u32") {
        Some(ScalarType::U32)
    } else if str_eq(name, "u64") {
        Some(ScalarType::U64)
    } else if str_eq(name, "s8") {
        Some(ScalarType::S8)
    } else if str_eq(name, "s16") {
        Some(ScalarType::S16)
    } else if str_eq(name, "s32") {
        Some(ScalarType::S32)
    } else if str_eq(name, "s64") {
        Some(ScalarType::S64)
    } else if str_eq(name, "f16") {
        Some(ScalarType::F16)
    } else if str_eq(name, "f32") {
        Some(ScalarType::F32)
    } else if str_eq(name, "f64") {
        Some(ScalarType::F64)
    } else if str_eq(name, "pred") {
        Some(ScalarType::Pred)
    } else {
        None
    }
}

/// The state space named by a modifier such as `global` or `param`.
fn state_space_of(name: &str) -> (r: Option<StateSpace>) {
    if str_eq(name, "reg") {
        Some(StateSpace::Reg)
    } else if str_eq(name, "const") {
        Some(StateSpace::Const)
    } else if str_eq(name, "global") {
        Some(StateSpace::Global)
    } else if str_eq(name, "local") {
        Some(StateSpace::Local)
    } else if str_eq(name, "shared") {
        Some(StateSpace::Shared)
    } else if str_eq(name, "param") {
        Some(StateSpace::Param)
    } else {
        None
    }
}

/// The rounding mode named by a modifier, for float (`rn`…) and
/// float-to-integer (`rni`…) conversions.
fn rounding_of(name: &str) -> (r: Option<RoundingMode>) {
    if str_eq(name, "rn") || str_eq(name, "rni") {
        Some(RoundingMode::NearestEven)
    } else if str_eq(name, "rz") || str_eq(name, "rzi") {
        Some(RoundingMode::Zero)
    } else if str_eq(name, "rp") || str_eq(name, "rpi") {
        Some(RoundingMode::PositiveInf)
    } else if str_eq(name, "rm") || str_eq(name, "rmi") {
        Some(RoundingMode::NegativeInf)
    } else {
        None
    }
}

/// The comparison named by a setp modifier, ordered or unordered.
fn comparison_of(name: &str) -> (r: Option<Comparison>) {
    if str_eq(name, "eq") {
        Some(Comparison { op: CmpOp::Eq, unordered: false })
    } else if str_eq(name, "ne") {
        Some(Comparison { op: CmpOp::NotEq, unordered: false })
    } else if str_eq(name, "lt") {
        Some(Comparison { op: CmpOp::Lt, unordered: false })
    } else if str_eq(name, "le") {
        Some(Comparison { op: CmpOp::Le, unordered: false })
    } else if str_eq(name, "gt") {
        Some(Comparison { op: CmpOp::Gt, unordered: false })
    } else if str_eq(name, "ge") {
        Some(Comparison { op: CmpOp::Ge, unordered: false })
    } else if str_eq(name, "equ") {
        Some(Comparison { op: CmpOp::Eq, unordered: true })
    } else if str_eq(name, "neu") {
        Some(Comparison { op: CmpOp::NotEq, unordered: true })
    } else if str_eq(name, "ltu") {
        Some(Comparison { op: CmpOp::Lt, unordered: true })
    } else if str_eq(name, "leu") {
        Some(Comparison { op: CmpOp::Le, unordered: true })
    } else if str_eq(name, "gtu") {
        Some(Comparison { op: CmpOp::Gt, unordered: true })
    } else if str_eq(name, "geu") {
        Some(Comparison { op: CmpOp::Ge, unordered: true })
    } else {
        None
    }
}

/// The math intrinsic named by an opcode.
fn math_op_of(name: &str) -> (r: Option<MathOp>) {
    if str_eq(name, "rcp") {
        Some(MathOp::Rcp)
    } else if str_eq(name, "sqrt") {
        Some(MathOp::Sqrt)
    } else if str_eq(name, "rsqrt") {
        Some(MathOp::Rsqrt)
    } else if str_eq(name, "sin") {
        Some(MathOp::Sin)
    } else if str_eq(name, "cos") {
        Some(MathOp::Cos)
    } else if str_eq(name, "lg2") {
        Some(MathOp::Lg2)
    } else if str_eq(name, "ex2") {
        Some(MathOp::Ex2)
    } else {
        None
    }
}

/// The bit operation named by an opcode.
fn bit_op_of(name: &str) -> (r: Option<BitOp>) {
    if str_eq(name, "and") {
        Some(BitOp::And)
    } else if str_eq(name, "or") {
        Some(BitOp::Or)
    } else if str_eq(name, "xor") {
        Some(BitOp::Xor)
    } else if str_eq(name, "shl") {
        Some(BitOp::Shl)
    } else if str_eq(name, "shr") {
        Some(BitOp::Shr)
    } else {
        None
    }
}

/// Collects the dotted modifiers that follow an opcode.
fn take_modifiers(toks: &Vec<Token>, pos: &mut usize) -> (mods: Vec<String>)
    requires
        *old(pos) <= toks@.len(),
    ensures
        *old(pos) <= *final(pos) <= toks@.len(),
{
    let mut mods: Vec<String> = Vec::new();
    while *pos < toks.len()
        invariant
            *old(pos) <= *pos <= toks@.len(),
        decreases toks@.len() - *pos,
    {
        let is_dir = match &toks[*pos].kind {
            TokKind::Directive(_) => true,
            _ => false,
        };
        if !is_dir {
            break ;
        }
        match &toks[*pos].kind {
            TokKind::Directive(name) => {
                mods.push(name.clone());
            },
            _ => {},
        }
        *pos += 1;
    }
    mods
}

/// Converts an unsigned literal with an optional leading minus into the
/// signed immediate it denotes; fails when the value does not fit.
fn signed_of(v: u64, neg: bool) -> (r: Result<i64, ()>) {
    if neg {
        if v <= 0x7fff_ffff_ffff_ffff {
            Ok((-(v as i64)) as i64)
        } else if v == 0x8000_0000_0000_0000 {
            Ok(i64::MIN)
        } else {
            Err(())
        }
    } else {
        if v <= 0x7fff_ffff_ffff_ffff {
            Ok(v as i64)
        } else {
            Err(())
        }
    }
}

/// Parses one plain operand: a register, an identifier used by name, or a
/// (possibly negated, possibly hex-float) immediate.
fn parse_operand(toks: &Vec<Token>, pos: &mut usize) -> (r: Result<Operand, SyntaxError>)
    requires
        *old(pos) <= toks@.len(),
    ensures
        *old(pos) <= *final(pos) <= toks@.len(),
        r is Ok ==> *final(pos) > *old(pos),
{
    if *pos >= toks.len() {
        return Err(err_at(toks, *pos, SyntaxErrorKind::UnexpectedEnd));
    }
    let neg = peek_is_punct(toks, *pos, 12);
    if neg {
        *pos += 1;
        if *pos >= toks.len() {
            return Err(err_at(toks, *pos, SyntaxErrorKind::UnexpectedEnd));
        }
    }
    match &toks[*pos].kind {
        TokKind::Reg(name) => {
            if neg {
                return Err(err_at(toks, *pos, SyntaxErrorKind::UnexpectedToken));
            }
            let out = name.clone();
            *pos += 1;
            Ok(Operand::Reg(out))
        },
        TokKind::Ident(name) => {
            if neg {
                return Err(err_at(toks, *pos, SyntaxErrorKind::UnexpectedToken));
            }
            let out = name.clone();
            *pos += 1;
            Ok(Operand::Reg(out))
        },
        TokKind::Num(v) => {
            let value = *v;
            match signed_of(value, neg) {
                Ok(imm) => {
                    *pos += 1;
                    Ok(Operand::Imm(imm))
                },
                Err(()) => Err(err_at(toks, *pos, SyntaxErrorKind::BadNumber)),
            }
        },
        TokKind::FloatBits(v, _wide) => {
            if neg {
                return Err(err_at(toks, *pos, SyntaxErrorKind::UnexpectedToken));
            }
            let bits = *v;
            *pos += 1;
            Ok(Operand::Imm(bits as i64))
        },
        _ => Err(err_at(toks, *pos, SyntaxErrorKind::UnexpectedToken)),
    }
}

/// Parses a bracketed memory operand `[base]` or `[base+offset]`.
fn parse_address(toks: &Vec<Token>, pos: &mut usize) -> (r: Result<AddressOperand, SyntaxError>)
    requires
        *old(pos) <= toks@.len(),
    ensures
        *old(pos) <= *final(pos) <= toks@.len(),
        r is Ok ==> *final(pos) > *old(pos),
{
    expect_punct(toks, pos, 4)?;
    let base = if *pos < toks.len() {
        match &toks[*pos].kind {
            TokKind::Reg(name) => {
                let out = name.clone();
                *pos += 1;
                out
            },
            TokKind::Ident(name) => {
                let out = name.clone();
                *pos += 1;
                out
            },
            _ => {
                return Err(err_at(toks, *pos, SyntaxErrorKind::UnexpectedToken));
            },
        }
    } else {
        return Err(err_at(toks, *pos, SyntaxErrorKind::UnexpectedEnd));
    };
    let mut offset: i64 = 0;
    if peek_is_punct(toks, *pos, 11) {
        *pos += 1;
        let v = take_num(toks, pos)?;
        match signed_of(v, false) {
            Ok(imm) => {
                offset = imm;
            },
            Err(()) => {
                return Err(err_at(toks, *pos, SyntaxErrorKind::BadNumber));
            },
        }
    } else if peek_is_punct(toks, *pos, 12) {
        *pos += 1;
        let v = take_num(toks, pos)?;
        match signed_of(v, true) {
            Ok(imm) => {
                offset = imm;
            },
            Err(()) => {
                return Err(err_at(toks, *pos, SyntaxErrorKind::BadNumber));
            },
        }
    }
    expect_punct(toks, pos, 5)?;
    Ok(AddressOperand { base, offset })
}

/// Every dotted modifier of one instruction, sorted into its category. An
/// unrecognised modifier sets `bad`.
struct ModSet {
    space: Option<StateSpace>,
    types: Vec<ScalarType>,
    rounding: Option<RoundingMode>,
    ftz: bool,
    sat: bool,
    cmp: Option<Comparison>,
    atom: Option<AtomOp>,
    approx: bool,
    wide: bool,
    lo: bool,
    hi: bool,
    uni: bool,
    to: bool,
    bad: bool,
}

/// Sorts the modifier names of one instruction into their categories.
#[verifier::loop_isolation(false)]
fn classify_mods(mods: &Vec<String>) -> (r: ModSet) {
    let mut out = ModSet {
        space: None,
        types: Vec::new(),
        rounding: None,
        ftz: false,
        sat: false,
        cmp: None,
        atom: None,
        approx: false,
        wide: false,
        lo: false,
        hi: false,
        uni: false,
        to: false,
        bad: false,
    };
    let n = mods.len();
    let mut i: usize = 0;
    while i < n
        invariant
            i <= n,
            n == mods@.len(),
        decreases n - i,
    {
        let m = mods[i].as_str();
        if let Some(t) = scalar_type_of(m) {
            out.types.push(t);
        } else if let Some(sp) = state_space_of(m) {
            out.space = Some(sp);
        } else if let Some(rm) = rounding_of(m) {
            out.rounding = Some(rm);
        } else if let Some(c) = comparison_of(m) {
            out.cmp = Some(c);
        } else if str_eq(m, "add") {
            out.atom = Some(AtomOp::Add);
        } else if str_eq(m, "cas") {
            out.atom = Some(AtomOp::Cas);
        } else if str_eq(m, "inc") {
            out.atom = Some(AtomOp::Inc);
        } else if str_eq(m, "ftz") {
            out.ftz = true;
        } else if str_eq(m, "sat") {
            out.sat = true;
        } else if str_eq(m, "approx") {
            out.approx = true;
        } else if str_eq(m, "wide") {
            out.wide = true;
        } else if str_eq(m, "lo") {
            out.lo = true;
        } else if str_eq(m, "hi") {
            out.hi = true;
        } else if str_eq(m, "uni") {
            out.uni = true;
        } else if str_eq(m, "to") {
            out.to = true;
        } else {
            out.bad = true;
        }
        i += 1;
    }
    out
}

/// Parses the operand list `dst, a, b` shared by the binary operations.
fn parse_dst_two(toks: &Vec<Token>, pos: &mut usize) -> (r: Result<
    (String, Operand, Operand),
    SyntaxError,
>)
    requires
        *old(pos) <= toks@.len(),
    ensures
        *old(pos) <= *final(pos) <= toks@.len(),
        r is Ok ==> *final(pos) > *old(pos),
{
    let dst = take_reg(toks, pos)?;
    expect_punct(toks, pos, 6)?;
    let a = parse_operand(toks, pos)?;
    expect_punct(toks, pos, 6)?;
    let b = parse_operand(toks, pos)?;
    Ok((dst, a, b))
}

/// Parses one instruction: its opcode, its dotted modifiers and its
/// operands. The closing semicolon stays for the caller.
#[verifier::loop_isolation(false)]
fn parse_instruction(toks: &Vec<Token>, pos: &mut usize) -> (r: Result<Instruction, SyntaxError>)
    requires
        *old(pos) <= toks@.len(),
    ensures
        *old(pos) <= *final(pos) <= toks@.len(),
        r is Ok ==> *final(pos) > *old(pos),
{
    let start = *pos;
    let opcode = take_ident(toks, pos)?;
    let mods = take_modifiers(toks, pos);
    let ms = classify_mods(&mods);
    let op = opcode.as_str();
    if ms.bad {
        return Err(err_at(toks, start, SyntaxErrorKind::BadModifier));
    }
    if str_eq(op, "ld") {
        if ms.types.len() != 1 {
            return Err(err_at(toks, start, SyntaxErrorKind::BadModifier));
        }
        let typ = ms.types[0];
        let space = match ms.space {
            Some(sp) => sp,
            None => StateSpace::Generic,
        };
        let dst = take_reg(toks, pos)?;
        expect_punct(toks, pos, 6)?;
        let addr = parse_address(toks, pos)?;
        Ok(Instruction::Ld { space, typ, dst, addr })
    } else if str_eq(op, "st") {
        if ms.types.len() != 1 {
            return Err(err_at(toks, start, SyntaxErrorKind::BadModifier));
        }
        let typ = ms.types[0];
        let space = match ms.space {
            Some(sp) => sp,
            None => StateSpace::Generic,
        };
        let addr = parse_address(toks, pos)?;
        expect_punct(toks, pos, 6)?;
        let src = parse_operand(toks, pos)?;
        Ok(Instruction::St { space, typ, addr, src })
    } else if str_eq(op, "mov") {
        if ms.types.len() != 1 {
            return Err(err_at(toks, start, SyntaxErrorKind::BadModifier));
        }
        let typ = ms.types[0];
        let dst = take_reg(toks, pos)?;
        expect_punct(toks, pos, 6)?;
        let src = parse_operand(toks, pos)?;
        Ok(Instruction::Mov { typ, dst, src })
    } else if str_eq(op, "add") || str_eq(op, "sub") {
        if ms.types.len() != 1 {
            return Err(err_at(toks, start, SyntaxErrorKind::BadModifier));
        }
        let typ = ms.types[0];
        let (dst, a, b) = parse_dst_two(toks, pos)?;
        if str_eq(op, "add") {
            Ok(Instruction::Add { typ, dst, a, b })
        } else {
            Ok(Instruction::Sub { typ, dst, a, b })
        }
    } else if str_eq(op, "mul") {
        if ms.types.len() != 1 || ms.hi {
            return Err(err_at(toks, start, SyntaxErrorKind::BadModifier));
        }
        let typ = ms.types[0];
        let (dst, a, b) = parse_dst_two(toks, pos)?;
        Ok(Instruction::Mul { typ, ftz: ms.ftz, wide: ms.wide, dst, a, b })
    } else if str_eq(op, "cvt") {
        if ms.types.len() != 2 {
            return Err(err_at(toks, start, SyntaxErrorKind::BadModifier));
        }
        let dst_type = ms.types[0];
        let src_type = ms.types[1];
        let dst = take_reg(toks, pos)?;
        expect_punct(toks, pos, 6)?;
        let src = parse_operand(toks, pos)?;
        Ok(
            Instruction::Cvt {
                rounding: ms.rounding,
                ftz: ms.ftz,
                saturate: ms.sat,
                dst_type,
                src_type,
                dst,
                src,
            },
        )
    } else if str_eq(op, "cvta") {
        let space = match ms.space {
            Some(sp) => sp,
            None => StateSpace::Generic,
        };
        let dst = take_reg(toks, pos)?;
        expect_punct(toks, pos, 6)?;
        let src = parse_operand(toks, pos)?;
        Ok(Instruction::Cvta { space, dst, src })
    } else if str_eq(op, "setp") {
        if ms.types.len() != 1 {
            return Err(err_at(toks, start, SyntaxErrorKind::BadModifier));
        }
        let cmp = match ms.cmp {
            Some(c) => c,
            None => {
                return Err(err_at(toks, start, SyntaxErrorKind::BadModifier));
            },
        };
        let typ = ms.types[0];
        let (dst, a, b) = parse_dst_two(toks, pos)?;
        Ok(Instruction::Setp { cmp, typ, dst, a, b })
    } else if str_eq(op, "selp") {
        if ms.types.len() != 1 {
            return Err(err_at(toks, start, SyntaxErrorKind::BadModifier));
        }
        let typ = ms.types[0];
        let (dst, a, b) = parse_dst_two(toks, pos)?;
        expect_punct(toks, pos, 6)?;
        let pred = take_reg(toks, pos)?;
        Ok(Instruction::Selp { typ, dst, a, b, pred })
    } else if str_eq(op, "bra") {
        let target = take_ident(toks, pos)?;
        Ok(Instruction::Bra { target })
    } else if str_eq(op, "ret") {
        Ok(Instruction::Ret)
    } else if str_eq(op, "not") {
        if ms.types.len() != 1 {
            return Err(err_at(toks, start, SyntaxErrorKind::BadModifier));
        }
        let typ = ms.types[0];
        let dst = take_reg(toks, pos)?;
        expect_punct(toks, pos, 6)?;
        let src = parse_operand(toks, pos)?;
        Ok(Instruction::Not { typ, dst, src })
    } else if let Some(bop) = bit_op_of(op) {
        if ms.types.len() != 1 {
            return Err(err_at(toks, start, SyntaxErrorKind::BadModifier));
        }
        let typ = ms.types[0];
        let (dst, a, b) = parse_dst_two(toks, pos)?;
        Ok(Instruction::Bit { op: bop, typ, dst, a, b })
    } else if str_eq(op, "atom") {
        if ms.types.len() != 1 {
            return Err(err_at(toks, start, SyntaxErrorKind::BadModifier));
        }
        let typ = ms.types[0];
        let space = match ms.space {
            Some(sp) => sp,
            None => StateSpace::Generic,
        };
        let aop = match ms.atom {
            Some(a) => a,
            None => {
                return Err(err_at(toks, start, SyntaxErrorKind::BadModifier));
            },
        };
        let dst = take_reg(toks, pos)?;
        expect_punct(toks, pos, 6)?;
        let addr = parse_address(toks, pos)?;
        expect_punct(toks, pos, 6)?;
        let a = parse_operand(toks, pos)?;
        let b = if peek_is_punct(toks, *pos, 6) {
            *pos += 1;
            Some(parse_operand(toks, pos)?)
        } else {
            None
        };
        Ok(Instruction::Atom { op: aop, space, typ, dst, addr, a, b })
    } else if let Some(mop) = math_op_of(op) {
        if ms.types.len() != 1 {
            return Err(err_at(toks, start, SyntaxErrorKind::BadModifier));
        }
        let typ = ms.types[0];
        let dst = take_reg(toks, pos)?;
        expect_punct(toks, pos, 6)?;
        let src = parse_operand(toks, pos)?;
        Ok(
            Instruction::Math {
                op: mop,
                approx: ms.approx,
                ftz: ms.ftz,
                typ,
                dst,
                src,
            },
        )
    } else if str_eq(op, "fma") {
        if ms.types.len() != 1 {
            return Err(err_at(toks, start, SyntaxErrorKind::BadModifier));
        }
        let rounding = match ms.rounding {
            Some(rm) => rm,
            None => {
                return Err(err_at(toks, start, SyntaxErrorKind::BadModifier));
            },
        };
        let typ = ms.types[0];
        let (dst, a, b) = parse_dst_two(toks, pos)?;
        expect_punct(toks, pos, 6)?;
        let c = parse_operand(toks, pos)?;
        Ok(Instruction::Fma { rounding, ftz: ms.ftz, typ, dst, a, b, c })
    } else {
        Err(err_at(toks, start, SyntaxErrorKind::UnknownOpcode))
    }
}

/// Parses the rest of a variable declaration after its space directive:
/// optional alignment, the type, the name, an optional `<count>` register
/// group and an optional (ignored) array suffix, up to and including the
/// semicolon.
fn parse_variable_rest(toks: &Vec<Token>, pos: &mut usize, space: StateSpace) -> (r: Result<
    VariableDecl,
    SyntaxError,
>)
    requires
        *old(pos) <= toks@.len(),
    ensures
        *old(pos) <= *final(pos) <= toks@.len(),
        r is Ok ==> *final(pos) > *old(pos),
{
    if peek_is_directive(toks, *pos, "align") {
        *pos += 1;
        let _align = take_num(toks, pos)?;
    }
    let tname = take_directive(toks, pos)?;
    let styp = match scalar_type_of(tname.as_str()) {
        Some(t) => t,
        None => {
            return Err(err_at(toks, *pos, SyntaxErrorKind::BadModifier));
        },
    };
    // vector declarations are written as a .vN modifier before the type
    let name = if *pos < toks.len() {
        match &toks[*pos].kind {
            TokKind::Reg(nm) => {
                let out = nm.clone();
                *pos += 1;
                out
            },
            TokKind::Ident(nm) => {
                let out = nm.clone();
                *pos += 1;
                out
            },
            _ => {
                return Err(err_at(toks, *pos, SyntaxErrorKind::UnexpectedToken));
            },
        }
    } else {
        return Err(err_at(toks, *pos, SyntaxErrorKind::UnexpectedEnd));
    };
    let mut count: Option<u32> = None;
    if peek_is_punct(toks, *pos, 13) {
        *pos += 1;
        let v = take_num(toks, pos)?;
        if v > 0xffff_ffff {
            return Err(err_at(toks, *pos, SyntaxErrorKind::BadNumber));
        }
        count = Some(v as u32);
        expect_punct(toks, pos, 14)?;
    }
    if peek_is_punct(toks, *pos, 4) {
        *pos += 1;
        if !peek_is_punct(toks, *pos, 5) {
            let _len = take_num(toks, pos)?;
        }
        expect_punct(toks, pos, 5)?;
    }
    expect_punct(toks, pos, 7)?;
    Ok(VariableDecl { space, v_type: Type::Scalar(styp), name, count })
}

/// Parses one statement of a function body: a declaration, a label or a
/// possibly guarded instruction, consuming its terminating token.
#[verifier::loop_isolation(false)]
fn parse_statement(toks: &Vec<Token>, pos: &mut usize) -> (r: Result<Statement, SyntaxError>)
    requires
        *old(pos) <= toks@.len(),
    ensures
        *old(pos) <= *final(pos) <= toks@.len(),
        r is Ok ==> *final(pos) > *old(pos),
{
    if *pos >= toks.len() {
        return Err(err_at(toks, *pos, SyntaxErrorKind::UnexpectedEnd));
    }
    // declarations
    let decl_space: Option<StateSpace> = match &toks[*pos].kind {
        TokKind::Directive(d) => {
            let dn = d.as_str();
            if str_eq(dn, "reg") {
                Some(StateSpace::Reg)
            } else if str_eq(dn, "local") {
                Some(StateSpace::Local)
            } else if str_eq(dn, "shared") {
                Some(StateSpace::Shared)
            } else {
                None
            }
        },
        _ => None,
    };
    if let Some(space) = decl_space {
        *pos += 1;
        let decl = parse_variable_rest(toks, pos, space)?;
        return Ok(Statement::Variable(decl));
    }
    // guarded instruction
    if peek_is_punct(toks, *pos, 9) {
        *pos += 1;
        let not = if peek_is_punct(toks, *pos, 10) {
            *pos += 1;
            true
        } else {
            false
        };
        let reg = take_reg(toks, pos)?;
        let instr = parse_instruction(toks, pos)?;
        expect_punct(toks, pos, 7)?;
        return Ok(Statement::Instr(Some(PredAt { not, reg }), instr));
    }
    // label
    let is_label = if *pos + 1 < toks.len() {
        let first_is_ident = match &toks[*pos].kind {
            TokKind::Ident(_) => true,
            _ => false,
        };
        first_is_ident && peek_is_punct(toks, *pos + 1, 8)
    } else {
        false
    };
    if is_label {
        let name = take_ident(toks, pos)?;
        expect_punct(toks, pos, 8)?;
        return Ok(Statement::Label(name));
    }
    // plain instruction
    let instr = parse_instruction(toks, pos)?;
    expect_punct(toks, pos, 7)?;
    Ok(Statement::Instr(None, instr))
}

/// Skips ahead after a statement that failed to parse: consumes through the
/// next semicolon, but stops in front of a closing brace so the body can
/// end. Reports whether it advanced at all.
#[verifier::loop_isolation(false)]
fn skip_statement(toks: &Vec<Token>, pos: &mut usize) -> (advanced: bool)
    requires
        *old(pos) <= toks@.len(),
    ensures
        *old(pos) <= *final(pos) <= toks@.len(),
        advanced == (*final(pos) > *old(pos)),
{
    let start = *pos;
    while *pos < toks.len()
        invariant
            start <= *pos <= toks@.len(),
        decreases toks@.len() - *pos,
    {
        if peek_is_punct(toks, *pos, 1) {
            return *pos > start;
        }
        if peek_is_punct(toks, *pos, 7) {
            *pos += 1;
            return true;
        }
        *pos += 1;
    }
    *pos > start
}

/// Parses a `{ … }` function body, collecting one error per failed
/// statement and resynchronising at the next semicolon.
#[verifier::loop_isolation(false)]
fn parse_body(toks: &Vec<Token>, pos: &mut usize, errors: &mut Vec<SyntaxError>) -> (body: Vec<
    Statement,
>)
    requires
        *old(pos) <= toks@.len(),
    ensures
        *old(pos) <= *final(pos) <= toks@.len(),
        final(errors)@.len() >= old(errors)@.len(),
        forall|k: int|
            0 <= k < old(errors)@.len() ==> final(errors)@[k] == #[trigger] old(errors)@[k],
{
    let mut body: Vec<Statement> = Vec::new();
    match expect_punct(toks, pos, 0) {
        Ok(()) => {},
        Err(e) => {
            errors.push(e);
            return body;
        },
    }
    while *pos < toks.len()
        invariant
            *old(pos) <= *pos <= toks@.len(),
            errors@.len() >= old(errors)@.len(),
            forall|k: int|
                0 <= k < old(errors)@.len() ==> errors@[k] == #[trigger] old(errors)@[k],
        decreases toks@.len() - *pos,
    {
        if peek_is_punct(toks, *pos, 1) {
            *pos += 1;
            return body;
        }
        match parse_statement(toks, pos) {
            Ok(stmt) => {
                body.push(stmt);
            },
            Err(e) => {
                errors.push(e);
                if !skip_statement(toks, pos) {
                    return body;
                }
            },
        }
    }
    errors.push(err_at(toks, *pos, SyntaxErrorKind::UnexpectedEnd));
    body
}

/// Parses a parenthesised kernel parameter list.
#[verifier::loop_isolation(false)]
fn parse_params(toks: &Vec<Token>, pos: &mut usize) -> (r: Result<Vec<KernelParam>, SyntaxError>)
    requires
        *old(pos) <= toks@.len(),
    ensures
        *old(pos) <= *final(pos) <= toks@.len(),
{
    let mut params: Vec<KernelParam> = Vec::new();
    if !peek_is_punct(toks, *pos, 2) {
        return Ok(params);
    }
    *pos += 1;
    if peek_is_punct(toks, *pos, 3) {
        *pos += 1;
        return Ok(params);
    }
    loop
        invariant
            *old(pos) <= *pos <= toks@.len(),
        decreases toks@.len() - *pos,
    {
        let d = take_directive(toks, pos)?;
        if !str_eq(d.as_str(), "param") {
            return Err(err_at(toks, *pos, SyntaxErrorKind::UnexpectedToken));
        }
        if peek_is_directive(toks, *pos, "align") {
            *pos += 1;
            let _align = take_num(toks, pos)?;
        }
        let tname = take_directive(toks, pos)?;
        let styp = match scalar_type_of(tname.as_str()) {
            Some(t) => t,
            None => {
                return Err(err_at(toks, *pos, SyntaxErrorKind::BadModifier));
            },
        };
        let name = take_ident(toks, pos)?;
        params.push(KernelParam { name, v_type: Type::Scalar(styp) });
        if peek_is_punct(toks, *pos, 6) {
            *pos += 1;
        } else {
            expect_punct(toks, pos, 3)?;
            return Ok(params);
        }
    }
}

/// Skips ahead after a module directive that failed to parse: consumes
/// through the next semicolon or over one balanced brace pair. Reports
/// whether it advanced at all.
#[verifier::loop_isolation(false)]
fn skip_directive(toks: &Vec<Token>, pos: &mut usize) -> (advanced: bool)
    requires
        *old(pos) <= toks@.len(),
    ensures
        *old(pos) <= *final(pos) <= toks@.len(),
        advanced == (*final(pos) > *old(pos)),
{
    let start = *pos;
    let mut depth: usize = 0;
    while *pos < toks.len()
        invariant
            start <= *pos <= toks@.len(),
            depth <= 0xffff,
        decreases toks@.len() - *pos,
    {
        if peek_is_punct(toks, *pos, 0) {
            if depth == 0xffff {
                return *pos > start;
            }
            depth += 1;
            *pos += 1;
            continue ;
        }
        if peek_is_punct(toks, *pos, 1) {
            *pos += 1;
            if depth <= 1 {
                return true;
            }
            depth -= 1;
            continue ;
        }
        if peek_is_punct(toks, *pos, 7) && depth == 0 {
            *pos += 1;
            return true;
        }
        *pos += 1;
    }
    *pos > start
}

/// Parses one module-level directive after its optional linkage: a kernel
/// entry point, a device function or a module variable.
#[verifier::loop_isolation(false)]
fn parse_module_directive(toks: &Vec<Token>, pos: &mut usize, errors: &mut Vec<SyntaxError>) -> (r:
    Result<Directive, SyntaxError>)
    requires
        *old(pos) <= toks@.len(),
    ensures
        *old(pos) <= *final(pos) <= toks@.len(),
        r is Ok ==> *final(pos) > *old(pos),
        final(errors)@.len() >= old(errors)@.len(),
        forall|k: int|
            0 <= k < old(errors)@.len() ==> final(errors)@[k] == #[trigger] old(errors)@[k],
{
    // linkage
    while peek_is_directive(toks, *pos, "visible") || peek_is_directive(toks, *pos, "extern")
        || peek_is_directive(toks, *pos, "weak")
        invariant
            *old(pos) <= *pos <= toks@.len(),
            errors@.len() >= old(errors)@.len(),
            forall|k: int|
                0 <= k < old(errors)@.len() ==> errors@[k] == #[trigger] old(errors)@[k],
        decreases toks@.len() - *pos,
    {
        *pos += 1;
    }
    if peek_is_directive(toks, *pos, "entry") {
        *pos += 1;
        let name = take_ident(toks, pos)?;
        let in_args = parse_params(toks, pos)?;
        let body = parse_body(toks, pos, errors);
        return Ok(
            Directive::Method(
                PtxFunction { func_directive: MethodDecl::Kernel { name, in_args }, body },
            ),
        );
    }
    if peek_is_directive(toks, *pos, "func") {
        *pos += 1;
        let name = take_ident(toks, pos)?;
        let _args = parse_params(toks, pos)?;
        let body = parse_body(toks, pos, errors);
        return Ok(
            Directive::Method(PtxFunction { func_directive: MethodDecl::Func { name }, body }),
        );
    }
    let d = take_directive(toks, pos)?;
    let space = match state_space_of(d.as_str()) {
        Some(sp) => sp,
        None => {
            return Err(err_at(toks, *pos, SyntaxErrorKind::UnexpectedToken));
        },
    };
    let decl = parse_variable_rest(toks, pos, space)?;
    Ok(Directive::Variable(decl))
}

/// Parses the module header: `.version N.M`, `.target name[, name…]`,
/// `.address_size 64`.
#[verifier::loop_isolation(false)]
fn parse_header(toks: &Vec<Token>, pos: &mut usize) -> (r: Result<(u32, u32, String), SyntaxError>)
    requires
        *old(pos) <= toks@.len(),
    ensures
        *old(pos) <= *final(pos) <= toks@.len(),
{
    let d = take_directive(toks, pos)?;
    if !str_eq(d.as_str(), "version") {
        return Err(err_at(toks, *pos, SyntaxErrorKind::BadHeader));
    }
    let major = take_num(toks, pos)?;
    expect_punct(toks, pos, 15)?;
    let minor = take_num(toks, pos)?;
    if major > 0xffff_ffff || minor > 0xffff_ffff {
        return Err(err_at(toks, *pos, SyntaxErrorKind::BadHeader));
    }
    let d2 = take_directive(toks, pos)?;
    if !str_eq(d2.as_str(), "target") {
        return Err(err_at(toks, *pos, SyntaxErrorKind::BadHeader));
    }
    let target = take_ident(toks, pos)?;
    while peek_is_punct(toks, *pos, 6)
        invariant
            *old(pos) <= *pos <= toks@.len(),
        decreases toks@.len() - *pos,
    {
        *pos += 1;
        let _more = take_ident(toks, pos)?;
    }
    let d3 = take_directive(toks, pos)?;
    if !str_eq(d3.as_str(), "address_size") {
        return Err(err_at(toks, *pos, SyntaxErrorKind::BadHeader));
    }
    let addr_size = take_num(toks, pos)?;
    if addr_size != 64 {
        return Err(err_at(toks, *pos, SyntaxErrorKind::BadHeader));
    }
    Ok((major as u32, minor as u32, target))
}

/// Parses PTX source text. Syntax diagnostics go into `errors`, which is
/// only ever appended to; the parse does not stop at the first problem. A
/// module is handed back exactly when the collector gained no entry, since
/// any syntax error invalidates the tree even if one was built.
#[verifier::loop_isolation(false)]
pub fn parse_ptx_module(text: &str, errors: &mut Vec<SyntaxError>) -> (r: Option<PtxModule>)
    ensures
        final(errors)@.len() >= old(errors)@.len(),
        forall|k: int|
            0 <= k < old(errors)@.len() ==> final(errors)@[k] == #[trigger] old(errors)@[k],
        r is Some <==> final(errors)@.len() == old(errors)@.len(),
        r is Some ==> r.unwrap().address_size == 64,
{
    let n_before = errors.len();
    if !text.is_ascii() {
        errors.push(SyntaxError { kind: SyntaxErrorKind::UnexpectedCharacter, offset: 0 });
        return None;
    }
    let toks = tokenize(text, errors);
    let mut pos: usize = 0;
    let header = match parse_header(&toks, &mut pos) {
        Ok(h) => Some(h),
        Err(e) => {
            errors.push(e);
            None
        },
    };
    let ghost n_mid = errors@.len();
    let mut directives: Vec<Directive> = Vec::new();
    while pos < toks.len()
        invariant
            pos <= toks@.len(),
            errors@.len() >= n_mid,
            errors@.len() >= old(errors)@.len(),
            forall|k: int|
                0 <= k < old(errors)@.len() ==> errors@[k] == #[trigger] old(errors)@[k],
        decreases toks@.len() - pos,
    {
        match parse_module_directive(&toks, &mut pos, errors) {
            Ok(dir) => {
                directives.push(dir);
            },
            Err(e) => {
                errors.push(e);
                if !skip_directive(&toks, &mut pos) {
                    break ;
                }
            },
        }
    }
    let ok_so_far = errors.len() == n_before;
    match (header, ok_so_far) {
        (Some((version_major, version_minor, target)), true) => Some(
            PtxModule { version_major, version_minor, target, address_size: 64, directives },
        ),
        _ => None,
    }
}

} // verus!
