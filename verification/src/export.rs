//! Exported symbols and the identifiers of their address slots.
//!
//! An export's identity is its exact, case-sensitive name as the target
//! library's export directory declares it. Each export owns one address
//! slot; the generated source refers to that slot by an identifier derived
//! from the export's name.
use vstd::prelude::*;

use convert_case::{Case, Casing};

verus! {

/// The upper-snake-case rendering of a name, as the case conversion library
/// defines it: a deterministic function of the input bytes alone.
pub uninterp spec fn upper_snake_of(s: Seq<u8>) -> Seq<u8>;

/// Relies on convert_case's `Casing::to_case` with `Case::UpperSnake`,
/// which splits the name at its word boundaries, uppercases the words and
/// joins them with underscores; the result depends on the input alone.
#[verifier::external_body]
fn upper_snake(name: &Vec<u8>) -> (r: Vec<u8>)
    ensures
        r@ == upper_snake_of(name@),
{
    let text = String::from_utf8_lossy(name).into_owned();
    text.to_case(Case::UpperSnake).into_bytes()
}

/// The suffix of every slot identifier: the bytes of `_ADDRESS`.
pub open spec fn address_suffix() -> Seq<u8> {
    seq![0x5f, 0x41, 0x44, 0x44, 0x52, 0x45, 0x53, 0x53]
}

/// The identifier of a named export's address slot.
pub open spec fn slot_ident_of(name: Seq<u8>) -> Seq<u8> {
    upper_snake_of(name) + address_suffix()
}

/// One exported symbol of the target library.
#[derive(Clone, Debug, PartialEq, Eq)]
pub struct Export {
    pub name: Vec<u8>,
}

/// The address slot belonging to one export.
#[derive(Clone, Debug, PartialEq, Eq)]
pub struct ExportAddress {
    pub name: Vec<u8>,
}

impl Export {
    /// Builds an export from its name.
    pub fn new(name: Vec<u8>) -> (r: Export)
        ensures
            r.name@ == name@,
    {
        Export { name }
    }

    /// The address slot associated with this export.
    pub fn address(&self) -> (r: ExportAddress)
        ensures
            r.name@ == self.name@,
    {
        ExportAddress { name: crate::bytes::copy_bytes(&self.name) }
    }
}

impl ExportAddress {
    /// The identifier under which this slot appears in generated source:
    /// the upper-snake form of the export's name, with the address suffix.
    pub fn ident(&self) -> (r: Vec<u8>)
        ensures
            r@ == slot_ident_of(self.name@),
    {
        let mut v = upper_snake(&self.name);
        v.push(0x5f);  // _
        v.push(0x41);  // A
        v.push(0x44);  // D
        v.push(0x44);  // D
        v.push(0x52);  // R
        v.push(0x45);  // E
        v.push(0x53);  // S
        v.push(0x53);  // S
        proof {
            assert(v@ =~= slot_ident_of(self.name@));
        }
        v
    }
}

} // verus!
