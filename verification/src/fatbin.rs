//! Bounds-checked parsing of the multi-architecture kernel container: the
//! container header, the file-entry walk, the selection of the best PTX
//! variant, and the capacity policy of the decompression loop. Every read
//! is checked against the buffer and truncation is an explicit error; the
//! decompression call itself stays with the caller, which retries with the
//! capacities this module hands out.

use vstd::prelude::*;

verus! {

/// Why a container failed to parse.
#[derive(Clone, Copy, PartialEq, Eq, Structural, Debug)]
pub enum FatbinError {
    /// A read ran past the end of the buffer.
    Truncated,
    /// The container magic is wrong.
    BadMagic,
    /// The container version is unsupported.
    BadVersion,
}

/// The container magic.
pub const FATBIN_MAGIC: u32 = 0xBA55ED50;

/// The container version this parser understands.
pub const FATBIN_VERSION: u16 = 0x01;

/// The file kind of a PTX entry.
pub const FATBIN_FILE_KIND_PTX: u16 = 0x01;

/// The file-entry version this parser understands.
pub const FATBIN_FILE_VERSION: u16 = 0x101;

/// The ceiling of the retry growth: once doubling a failed buffer would
/// pass this, the module is abandoned.
pub const MAX_DECOMPRESSED: usize = 0x100_0000;

/// The little-endian 16-bit value at `off`.
pub open spec fn spec_le16(s: Seq<u8>, off: int) -> u16 {
    (s[off] as u16) | ((s[off + 1] as u16) << 8)
}

/// The little-endian 32-bit value at `off`.
pub open spec fn spec_le32(s: Seq<u8>, off: int) -> u32 {
    (s[off] as u32) | ((s[off + 1] as u32) << 8) | ((s[off + 2] as u32) << 16) | ((s[off + 3]
        as u32) << 24)
}

/// The little-endian 64-bit value at `off`.
pub open spec fn spec_le64(s: Seq<u8>, off: int) -> u64 {
    (spec_le32(s, off) as u64) | ((spec_le32(s, off + 4) as u64) << 32)
}

/// Reads the little-endian 16-bit value at `off`, or fails on truncation.
fn read_u16(data: &[u8], off: usize) -> (r: Result<u16, FatbinError>)
    ensures
        r is Ok <==> off + 2 <= data@.len(),
        r is Ok ==> r.unwrap() == spec_le16(data@, off as int),
{
    let n = data.len();
    if off >= n || n - off < 2 {
        return Err(FatbinError::Truncated);
    }
    Ok((data[off] as u16) | ((data[off + 1] as u16) << 8))
}

/// Reads the little-endian 32-bit value at `off`, or fails on truncation.
fn read_u32(data: &[u8], off: usize) -> (r: Result<u32, FatbinError>)
    ensures
        r is Ok <==> off + 4 <= data@.len(),
        r is Ok ==> r.unwrap() == spec_le32(data@, off as int),
{
    let n = data.len();
    if off >= n || n - off < 4 {
        return Err(FatbinError::Truncated);
    }
    Ok(
        (data[off] as u32) | ((data[off + 1] as u32) << 8) | ((data[off + 2] as u32) << 16) | ((
        data[off + 3] as u32) << 24),
    )
}

/// Reads the little-endian 64-bit value at `off`, or fails on truncation.
fn read_u64(data: &[u8], off: usize) -> (r: Result<u64, FatbinError>)
    ensures
        r is Ok <==> off + 8 <= data@.len(),
        r is Ok ==> r.unwrap() == spec_le64(data@, off as int),
{
    let n = data.len();
    if off >= n || n - off < 8 {
        return Err(FatbinError::Truncated);
    }
    let lo = read_u32(data, off);
    let hi = read_u32(data, off + 4);
    match (lo, hi) {
        (Ok(l), Ok(h)) => Ok((l as u64) | ((h as u64) << 32)),
        _ => Err(FatbinError::Truncated),
    }
}

/// One file entry of the container, located by offsets into the buffer
/// rather than by pointers.
#[derive(Clone, Copy, Debug)]
pub struct FatbinFile {
    pub kind: u16,
    pub version: u16,
    pub sm_version: u32,
    /// Offset of the (compressed) payload in the buffer.
    pub payload_offset: usize,
    /// Compressed payload size in bytes.
    pub payload_size: u32,
    /// The recorded size of the decompressed payload; zero when absent.
    pub uncompressed_payload: u64,
}

/// The entry whose header starts at `index`, as the walk reads it.
pub open spec fn spec_entry_at(data: Seq<u8>, index: int) -> FatbinFile {
    FatbinFile {
        kind: spec_le16(data, index),
        version: spec_le16(data, index + 2),
        sm_version: spec_le32(data, index + 28),
        payload_offset: (index + spec_le32(data, index + 4)) as usize,
        payload_size: spec_le32(data, index + 16),
        uncompressed_payload: spec_le64(data, index + 56),
    }
}

/// The walk over the file region `[index, end)`: the PTX entries of the
/// chain in order, or nothing when an entry is malformed or runs past a
/// bound. Every entry advances by its header size plus its padded payload
/// size; an entry of another kind is passed over.
pub open spec fn spec_chain(data: Seq<u8>, index: int, end: int) -> Option<Seq<FatbinFile>>
    decreases end - index,
{
    if index >= end {
        Some(Seq::<FatbinFile>::empty())
    } else if end - index < 64 {
        None
    } else {
        let e = spec_entry_at(data, index);
        let fheader = spec_le32(data, index + 4) as int;
        let padded = spec_le32(data, index + 8) as int;
        if fheader == 0 && padded == 0 {
            None
        } else if end - index < fheader || end - index - fheader < padded {
            None
        } else if e.kind == FATBIN_FILE_KIND_PTX && e.version == FATBIN_FILE_VERSION {
            if data.len() - (index + fheader) < e.payload_size {
                None
            } else {
                match spec_chain(data, index + fheader + padded, end) {
                    Some(rest) => Some(seq![e] + rest),
                    None => None,
                }
            }
        } else {
            spec_chain(data, index + fheader + padded, end)
        }
    }
}

/// The whole container: header validation, then the file-region walk. The
/// parser succeeds exactly when this is something, and then returns it.
pub open spec fn spec_parse_fatbin(data: Seq<u8>) -> Option<Seq<FatbinFile>> {
    if data.len() < 4 || spec_le32(data, 0) != FATBIN_MAGIC {
        None
    } else if data.len() < 6 || spec_le16(data, 4) != FATBIN_VERSION {
        None
    } else if data.len() < 16 {
        None
    } else {
        let start = spec_le16(data, 6) as int;
        let fsz = spec_le64(data, 8) as int;
        if fsz > 0xffff_ffff || start > data.len() || data.len() - start < fsz {
            None
        } else {
            spec_chain(data, start, start + fsz)
        }
    }
}

/// Parses the container and collects its PTX entries: the magic and the
/// version must match, the file region must lie inside the buffer, every
/// entry header and payload is bounds-checked, and entries of other kinds
/// are skipped. Parsing succeeds exactly when the spec-level walk does and
/// returns exactly the chain's PTX entries, in order; a wrong magic or
/// version is reported as such, everything else as truncation.
#[verifier::loop_isolation(false)]
pub fn parse_fatbin(data: &[u8]) -> (r: Result<Vec<FatbinFile>, FatbinError>)
    ensures
        r is Ok <==> spec_parse_fatbin(data@) is Some,
        r is Ok ==> r.unwrap()@ == spec_parse_fatbin(data@).unwrap(),
        r is Ok ==> forall|k: int|
            0 <= k < r.unwrap()@.len() ==> (#[trigger] r.unwrap()@[k]).kind
                == FATBIN_FILE_KIND_PTX && r.unwrap()@[k].version == FATBIN_FILE_VERSION && r.unwrap()@[k].payload_offset
                + r.unwrap()@[k].payload_size <= data@.len(),
        r == Err::<Vec<FatbinFile>, FatbinError>(FatbinError::BadMagic) <==> data@.len() >= 4
            && spec_le32(data@, 0) != FATBIN_MAGIC,
        r == Err::<Vec<FatbinFile>, FatbinError>(FatbinError::BadVersion) <==> data@.len() >= 6
            && spec_le32(data@, 0) == FATBIN_MAGIC && spec_le16(data@, 4) != FATBIN_VERSION,
{
    let magic = match read_u32(data, 0) {
            Ok(v) => v,
            Err(_) => {
                return Err(FatbinError::Truncated);
            },
        };
    if magic != FATBIN_MAGIC {
        return Err(FatbinError::BadMagic);
    }
    let version = match read_u16(data, 4) {
            Ok(v) => v,
            Err(_) => {
                return Err(FatbinError::Truncated);
            },
        };
    if version != FATBIN_VERSION {
        return Err(FatbinError::BadVersion);
    }
    let header_size = match read_u16(data, 6) {
            Ok(v) => v,
            Err(_) => {
                return Err(FatbinError::Truncated);
            },
        };
    let files_size = match read_u64(data, 8) {
            Ok(v) => v,
            Err(_) => {
                return Err(FatbinError::Truncated);
            },
        };
    let n = data.len();
    let start = header_size as usize;
    if files_size > 0xffff_ffff {
        return Err(FatbinError::Truncated);
    }
    let fsz = files_size as usize;
    if start > n || n - start < fsz {
        return Err(FatbinError::Truncated);
    }
    let end = start + fsz;
    let mut out: Vec<FatbinFile> = Vec::new();
    let mut index = start;
    proof {
        if spec_chain(data@, index as int, end as int) is Some {
            assert(out@ + spec_chain(data@, index as int, end as int).unwrap() =~= spec_chain(
                data@,
                index as int,
                end as int,
            ).unwrap());
        }
    }
    while index < end
        invariant
            index <= end,
            end <= n,
            n == data@.len(),
            spec_chain(data@, index as int, end as int) is Some ==> spec_chain(
                data@,
                start as int,
                end as int,
            ) == Some(out@ + spec_chain(data@, index as int, end as int).unwrap()),
            spec_chain(data@, index as int, end as int) is None ==> spec_chain(
                data@,
                start as int,
                end as int,
            ) is None,
            forall|k: int|
                0 <= k < out@.len() ==> (#[trigger] out@[k]).kind == FATBIN_FILE_KIND_PTX
                    && out@[k].version == FATBIN_FILE_VERSION && out@[k].payload_offset
                    + out@[k].payload_size <= data@.len(),
        decreases end - index,
    {
        if end - index < 64 {
            return Err(FatbinError::Truncated);
        }
        let kind = match read_u16(data, index) {
            Ok(v) => v,
            Err(_) => {
                return Err(FatbinError::Truncated);
            },
        };
        let fversion = match read_u16(data, index + 2) {
            Ok(v) => v,
            Err(_) => {
                return Err(FatbinError::Truncated);
            },
        };
        let fheader_size = match read_u32(data, index + 4) {
            Ok(v) => v,
            Err(_) => {
                return Err(FatbinError::Truncated);
            },
        };
        let padded_payload_size = match read_u32(data, index + 8) {
            Ok(v) => v,
            Err(_) => {
                return Err(FatbinError::Truncated);
            },
        };
        let payload_size = match read_u32(data, index + 16) {
            Ok(v) => v,
            Err(_) => {
                return Err(FatbinError::Truncated);
            },
        };
        let sm_version = match read_u32(data, index + 28) {
            Ok(v) => v,
            Err(_) => {
                return Err(FatbinError::Truncated);
            },
        };
        let uncompressed_payload = match read_u64(data, index + 56) {
            Ok(v) => v,
            Err(_) => {
                return Err(FatbinError::Truncated);
            },
        };
        if fheader_size == 0 && padded_payload_size == 0 {
            // a stuck walk means a malformed entry
            return Err(FatbinError::Truncated);
        }
        let fheader = fheader_size as usize;
        let padded = padded_payload_size as usize;
        if end - index < fheader || (end - index) - fheader < padded {
            return Err(FatbinError::Truncated);
        }
        let payload_offset = index + fheader;
        let ghost e = spec_entry_at(data@, index as int);
        let ghost next = index + fheader + padded;
        proof {
            assert(e.kind == kind && e.version == fversion && e.sm_version == sm_version
                && e.payload_offset == payload_offset && e.payload_size == payload_size
                && e.uncompressed_payload == uncompressed_payload);
        }
        if kind == FATBIN_FILE_KIND_PTX && fversion == FATBIN_FILE_VERSION {
            if n - payload_offset < payload_size as usize {
                return Err(FatbinError::Truncated);
            }
            let ghost pre = out@;
            out.push(
                FatbinFile {
                    kind,
                    version: fversion,
                    sm_version,
                    payload_offset,
                    payload_size,
                    uncompressed_payload,
                },
            );
            proof {
                if spec_chain(data@, next as int, end as int) is Some {
                    assert(pre + (seq![e] + spec_chain(data@, next as int, end as int).unwrap())
                        =~= out@ + spec_chain(data@, next as int, end as int).unwrap());
                }
            }
        }
        index = payload_offset + padded;
    }
    proof {
        assert(out@ + Seq::<FatbinFile>::empty() =~= out@);
    }
    Ok(out)
}

/// Picks the candidate to decompress next: among the entries not yet
/// tried, one with the highest architecture version; nothing is left when
/// every entry was tried.
#[verifier::loop_isolation(false)]
pub fn best_untried(files: &Vec<FatbinFile>, tried: &Vec<bool>) -> (r: Option<usize>)
    requires
        files@.len() == tried@.len(),
    ensures
        r is Some <==> exists|i: int| 0 <= i < tried@.len() && !(#[trigger] tried@[i]),
        r is Some ==> r.unwrap() < files@.len() && !tried@[r.unwrap() as int] && forall|i: int|
            0 <= i < files@.len() && !(#[trigger] tried@[i]) ==> files@[i].sm_version
                <= files@[r.unwrap() as int].sm_version,
{
    let n = files.len();
    let mut best: Option<usize> = None;
    let mut i: usize = 0;
    while i < n
        invariant
            i <= n,
            n == files@.len() == tried@.len(),
            best is Some <==> exists|k: int| 0 <= k < i && !(#[trigger] tried@[k]),
            best is Some ==> best.unwrap() < i && !tried@[best.unwrap() as int] && forall|k: int|
                0 <= k < i && !(#[trigger] tried@[k]) ==> files@[k].sm_version
                    <= files@[best.unwrap() as int].sm_version,
        decreases n - i,
    {
        if !tried[i] {
            match best {
                Some(b) => {
                    if files[i].sm_version > files[b].sm_version {
                        best = Some(i);
                    }
                },
                None => {
                    best = Some(i);
                },
            }
        }
        i += 1;
    }
    best
}

/// The first decompression-buffer size for an entry: the recorded
/// decompressed size, but at least one kibibyte; only a size beyond the
/// address space saturates.
pub fn initial_capacity(uncompressed_payload: u64) -> (r: usize)
    ensures
        r == if uncompressed_payload < 1024 {
            1024int
        } else if uncompressed_payload > usize::MAX {
            usize::MAX as int
        } else {
            uncompressed_payload as int
        },
        r >= 1024,
{
    if uncompressed_payload < 1024 {
        1024
    } else if uncompressed_payload > (usize::MAX as u64) {
        usize::MAX
    } else {
        uncompressed_payload as usize
    }
}

/// The next buffer size after a failed decompression: double the last, or
/// nothing once the ceiling is passed, at which point the module is
/// abandoned.
pub fn grow_capacity(capacity: usize) -> (r: Option<usize>)
    ensures
        r is Some <==> 2 * capacity <= MAX_DECOMPRESSED,
        r is Some ==> r.unwrap() == 2 * capacity,
{
    if capacity <= MAX_DECOMPRESSED / 2 {
        Some(capacity * 2)
    } else {
        None
    }
}

} // verus!
