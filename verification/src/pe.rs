//! Export table reader.
//!
//! Reads the ordered list of exported names out of a mapped library image:
//! bytes laid out the way the loader maps them, so that a relative virtual
//! address is an offset into the byte slice. The reader validates the image's
//! structural signatures and fails with a descriptive error on malformed
//! input; it never panics and never silently drops a malformed name.
//!
//! The functions [`spec_export_names`] and its helpers are the specification:
//! a direct transcription of the on-disk format. [`export_names`] is the
//! executable reader, proved to return exactly what the specification says.
use vstd::prelude::*;

use crate::bytes::{find_nul, le16, le32};

verus! {

/// Why an image was rejected.
#[derive(Clone, Copy, Debug, PartialEq, Eq, Structural)]
pub enum PeError {
    /// A required structure lies (partly) outside the image.
    Truncated,
    /// The image does not begin with the two-byte container marker.
    BadDosSignature,
    /// The four-byte header signature is missing.
    BadPeSignature,
    /// The optional header is absent, too small, or of an unknown kind.
    BadOptionalHeader,
    /// The image has no export directory.
    NoExportDirectory,
    /// The export directory announces names but points nowhere for them.
    BadNameTable,
    /// An exported name is not valid text.
    BadExportName,
}

/// Offset of the newer-style headers, stored in the legacy header.
pub open spec fn nt_offset(s: Seq<u8>) -> int {
    le32(s, 0x3c)
}

/// The legacy two-byte marker `MZ` at the start of every image.
pub open spec fn dos_signature_ok(s: Seq<u8>) -> bool {
    s[0] == 0x4d && s[1] == 0x5a
}

/// Size in bytes of the optional header, from the file header.
pub open spec fn optional_header_size(s: Seq<u8>) -> int {
    le16(s, nt_offset(s) + 20)
}

/// The optional header's magic number, telling the 32-bit and the 64-bit
/// layout apart.
pub open spec fn optional_magic(s: Seq<u8>) -> int {
    le16(s, nt_offset(s) + 24)
}

/// True for the 64-bit optional header layout.
pub open spec fn is_pe32_plus(s: Seq<u8>) -> bool {
    optional_magic(s) == 0x20b
}

/// Offset of the data directory array, relative to the optional header.
pub open spec fn data_dir_rel(s: Seq<u8>) -> int {
    if is_pe32_plus(s) {
        112
    } else {
        96
    }
}

/// Number of data directory entries; the count sits just before the array.
pub open spec fn num_data_dirs(s: Seq<u8>) -> int {
    le32(s, nt_offset(s) + 24 + data_dir_rel(s) - 4)
}

/// Address of the export directory: the first data directory entry.
pub open spec fn export_dir_rva(s: Seq<u8>) -> int {
    le32(s, nt_offset(s) + 24 + data_dir_rel(s))
}

/// How many exported names the export directory announces.
pub open spec fn export_name_count(s: Seq<u8>) -> int {
    le32(s, export_dir_rva(s) + 24)
}

/// Address of the table of name addresses.
pub open spec fn name_table_rva(s: Seq<u8>) -> int {
    le32(s, export_dir_rva(s) + 32)
}

/// Address of the `i`-th exported name.
pub open spec fn name_rva(s: Seq<u8>, i: int) -> int {
    le32(s, name_table_rva(s) + 4 * i)
}

/// The exported names from index `i` on: each a NUL-terminated, valid UTF-8
/// string sitting at the address the name table gives for it.
pub open spec fn spec_names_from(s: Seq<u8>, i: int) -> Result<Seq<Seq<u8>>, PeError>
    decreases export_name_count(s) - i,
{
    if i >= export_name_count(s) {
        Ok(Seq::empty())
    } else if name_table_rva(s) + 4 * i + 4 > s.len() {
        Err(PeError::Truncated)
    } else {
        match find_nul(s, name_rva(s, i)) {
            None => Err(PeError::Truncated),
            Some(end) => {
                let name = s.subrange(name_rva(s, i), end);
                if !vstd::utf8::valid_utf8(name) {
                    Err(PeError::BadExportName)
                } else {
                    match spec_names_from(s, i + 1) {
                        Ok(rest) => Ok(seq![name] + rest),
                        Err(e) => Err(e),
                    }
                }
            },
        }
    }
}

/// What reading the export table of a mapped image yields: either the ordered
/// sequence of exported names, or the first structural fault found, checked
/// in the order the structures are reached.
pub open spec fn spec_export_names(s: Seq<u8>) -> Result<Seq<Seq<u8>>, PeError> {
    if s.len() < 0x40 {
        Err(PeError::Truncated)
    } else if !dos_signature_ok(s) {
        Err(PeError::BadDosSignature)
    } else if nt_offset(s) + 26 > s.len() {
        Err(PeError::Truncated)
    } else if le32(s, nt_offset(s)) != 0x4550 {
        Err(PeError::BadPeSignature)
    } else if optional_magic(s) != 0x10b && optional_magic(s) != 0x20b {
        Err(PeError::BadOptionalHeader)
    } else if optional_header_size(s) < data_dir_rel(s) + 8 {
        Err(PeError::BadOptionalHeader)
    } else if nt_offset(s) + 24 + data_dir_rel(s) + 8 > s.len() {
        Err(PeError::Truncated)
    } else if num_data_dirs(s) == 0 {
        Err(PeError::NoExportDirectory)
    } else if export_dir_rva(s) == 0 {
        Err(PeError::NoExportDirectory)
    } else if export_dir_rva(s) + 40 > s.len() {
        Err(PeError::Truncated)
    } else if export_name_count(s) == 0 {
        Ok(Seq::empty())
    } else if name_table_rva(s) == 0 {
        Err(PeError::BadNameTable)
    } else {
        spec_names_from(s, 0)
    }
}

/// Reads the ordered exported names of a mapped library image.
///
/// Returns exactly what [`spec_export_names`] says: the names in table
/// order on success, the first structural fault otherwise. An image with an
/// export directory and zero names yields an empty list.
#[verifier::loop_isolation(false)]
pub fn export_names(image: &[u8]) -> (r: Result<Vec<Vec<u8>>, PeError>)
    ensures
        match r {
            Ok(names) => spec_export_names(image@) == Ok::<Seq<Seq<u8>>, PeError>(
                names.deep_view(),
            ),
            Err(e) => spec_export_names(image@) == Err::<Seq<Seq<u8>>, PeError>(e),
        },
{
    let n = image.len();
    let n64 = n as u64;
    if n < 0x40 {
        return Err(PeError::Truncated);
    }
    if !(image[0] == 0x4d && image[1] == 0x5a) {
        return Err(PeError::BadDosSignature);
    }
    let nt32 = crate::bytes::read_le32(image, 0x3c);
    if nt32 as u64 + 26 > n64 {
        return Err(PeError::Truncated);
    }
    let nt = nt32 as usize;
    let sig = crate::bytes::read_le32(image, nt);
    if sig != 0x4550 {
        return Err(PeError::BadPeSignature);
    }
    let opt_size = crate::bytes::read_le16(image, nt + 20);
    let magic = crate::bytes::read_le16(image, nt + 24);
    let pe32_plus: bool;
    if magic == 0x20b {
        pe32_plus = true;
    } else if magic == 0x10b {
        pe32_plus = false;
    } else {
        return Err(PeError::BadOptionalHeader);
    }
    let dd_rel: usize = if pe32_plus {
        112
    } else {
        96
    };
    if (opt_size as usize) < dd_rel + 8 {
        return Err(PeError::BadOptionalHeader);
    }
    if nt as u64 + 24 + dd_rel as u64 + 8 > n64 {
        return Err(PeError::Truncated);
    }
    let num_dirs = crate::bytes::read_le32(image, nt + 24 + dd_rel - 4);
    if num_dirs == 0 {
        return Err(PeError::NoExportDirectory);
    }
    let edir32 = crate::bytes::read_le32(image, nt + 24 + dd_rel);
    if edir32 == 0 {
        return Err(PeError::NoExportDirectory);
    }
    if edir32 as u64 + 40 > n64 {
        return Err(PeError::Truncated);
    }
    let edir = edir32 as usize;
    let count = crate::bytes::read_le32(image, edir + 24);
    if count == 0 {
        let names: Vec<Vec<u8>> = Vec::new();
        assert(names.deep_view() =~~= Seq::<Seq<u8>>::empty());
        return Ok(names);
    }
    let ntab32 = crate::bytes::read_le32(image, edir + 32);
    if ntab32 == 0 {
        return Err(PeError::BadNameTable);
    }
    let mut out: Vec<Vec<u8>> = Vec::new();
    let mut i: u32 = 0;
    assert(out.deep_view() =~~= Seq::<Seq<u8>>::empty());
    while i < count
        invariant
            i <= count,
            spec_names_from(image@, 0) == (match spec_names_from(image@, i as int) {
                Ok(rest) => Ok::<Seq<Seq<u8>>, PeError>(out.deep_view() + rest),
                Err(e) => Err::<Seq<Seq<u8>>, PeError>(e),
            }),
        decreases count - i,
    {
        let off64 = ntab32 as u64 + 4u64 * (i as u64);
        if off64 + 4 > n64 {
            return Err(PeError::Truncated);
        }
        let off = (ntab32 as usize) + 4 * (i as usize);
        let rva32 = crate::bytes::read_le32(image, off);
        assert(rva32 == name_rva(image@, i as int));
        if rva32 as u64 > n64 {
            return Err(PeError::Truncated);
        }
        let rva = rva32 as usize;
        let end_opt = crate::bytes::scan_nul(image, rva);
        let end: usize;
        match end_opt {
            None => {
                return Err(PeError::Truncated);
            },
            Some(e) => {
                end = e;
            },
        }
        proof {
            crate::bytes::lemma_find_nul(image@, rva as int);
        }
        let mut name: Vec<u8> = Vec::new();
        let mut j = rva;
        assert(name@ =~= image@.subrange(rva as int, rva as int));
        while j < end
            invariant
                rva <= j <= end,
                name@ == image@.subrange(rva as int, j as int),
            decreases end - j,
        {
            name.push(image[j]);
            assert(name@ =~= image@.subrange(rva as int, j as int + 1));
            j = j + 1;
        }
        if !crate::bytes::is_valid_utf8(name.as_slice()) {
            return Err(PeError::BadExportName);
        }
        let ghost prev_dv = out.deep_view();
        let ghost name_seq = name@;
        out.push(name);
        proof {
            assert(out.deep_view() =~~= prev_dv.push(name_seq));
            if let Ok(rest) = spec_names_from(image@, i as int + 1) {
                assert(prev_dv + (seq![name_seq] + rest) =~~= prev_dv.push(name_seq) + rest);
            }
        }
        i = i + 1;
    }
    assert(out.deep_view() + Seq::<Seq<u8>>::empty() =~~= out.deep_view());
    Ok(out)
}

} // verus!
