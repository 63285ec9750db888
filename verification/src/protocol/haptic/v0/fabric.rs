//! The transponders in the antenna field, and the fabrics that they are
//! grouped into. The records are held in `smallvec` vectors.

use crate::error::{InternalError, Result};
use crate::protocol::common::Fabric;
use smallvec::SmallVec;
use vstd::prelude::*;
use vstd::slice::slice_to_vec;

verus! {

/// A serial number, held in a `smallvec` vector of bytes.
#[verifier::external_body]
#[derive(Debug)]
pub struct UidBytes {
    bytes: SmallVec<[u8; 8]>,
}

/// The transponders of a fabric, held in a `smallvec` vector.
#[verifier::external_body]
#[derive(Debug)]
pub struct TransponderList {
    items: SmallVec<[ObidTransponder; 2]>,
}

/// The bytes that a serial number holds, in order.
pub uninterp spec fn uid_bytes(uid: UidBytes) -> Seq<u8>;

/// The transponders that a list holds, in order.
pub uninterp spec fn transponder_items(transponders: TransponderList) -> Seq<ObidTransponder>;

/// The bytes of a serial number.
pub const UID_LENGTH: usize = 8;

/// One transponder in the antenna field.
#[derive(Debug)]
pub struct ObidTransponder {
    /// The serial number, eight bytes.
    pub uid: UidBytes,
    /// The RF technology of the transponder, two bits.
    pub tr_type_rf_tec: u8,
    /// The type number of the transponder, four bits.
    pub tr_type_type_no: u8,
    /// The data storage format identifier.
    pub dsfid: u8,
}

/// `SmallVec::from` on a slice of bytes: a vector that holds a copy of
/// each byte of the slice, in order.
#[verifier::external_body]
pub(crate) fn uid_from_slice(bytes: &[u8]) -> (uid: UidBytes)
    ensures
        uid_bytes(uid) == bytes@,
{
    UidBytes { bytes: SmallVec::from(bytes) }
}

/// `SmallVec::as_slice` on a vector of bytes: the bytes that the vector
/// holds, in order.
#[verifier::external_body]
pub(crate) fn uid_as_slice(uid: &UidBytes) -> (bytes: &[u8])
    ensures
        bytes@ == uid_bytes(*uid),
{
    uid.bytes.as_slice()
}

/// `SmallVec::new` for transponders: a vector that holds nothing.
#[verifier::external_body]
pub(crate) fn transponders_new() -> (transponders: TransponderList)
    ensures
        transponder_items(transponders) == Seq::<ObidTransponder>::empty(),
{
    TransponderList { items: SmallVec::new() }
}

/// `SmallVec::push` for transponders: the vector holds what it held, and
/// the new transponder behind it.
#[verifier::external_body]
pub(crate) fn transponders_push(transponders: &mut TransponderList, transponder: ObidTransponder)
    ensures
        transponder_items(*final(transponders)) == transponder_items(*old(transponders)).push(
            transponder,
        ),
{
    transponders.items.push(transponder)
}

/// `SmallVec::len` for transponders: the number of transponders that the
/// vector holds.
#[verifier::external_body]
pub(crate) fn transponders_len(transponders: &TransponderList) -> (len: usize)
    ensures
        len == transponder_items(*transponders).len(),
{
    transponders.items.len()
}

/// Indexing a `SmallVec` of transponders: the transponder at `index`. The
/// outside index panics beyond the length, which `requires` leaves out.
#[verifier::external_body]
pub(crate) fn transponder_at(transponders: &TransponderList, index: usize) -> (transponder:
    &ObidTransponder)
    requires
        index < transponder_items(*transponders).len(),
    ensures
        *transponder == transponder_items(*transponders)[index as int],
{
    &transponders.items[index]
}

/// A transponder as plain values.
pub struct TransponderModel {
    /// The serial number.
    pub uid: Seq<u8>,
    /// The RF technology.
    pub tr_type_rf_tec: u8,
    /// The type number.
    pub tr_type_type_no: u8,
    /// The data storage format identifier.
    pub dsfid: u8,
}

impl ObidTransponder {
    /// The transponder as plain values.
    pub open spec fn view(&self) -> TransponderModel {
        TransponderModel {
            uid: uid_bytes(self.uid),
            tr_type_rf_tec: self.tr_type_rf_tec,
            tr_type_type_no: self.tr_type_type_no,
            dsfid: self.dsfid,
        }
    }

    /// A transponder with the given serial number and properties.
    pub fn new(uid: &[u8], tr_type_rf_tec: u8, tr_type_type_no: u8, dsfid: u8) -> (transponder:
        ObidTransponder)
        ensures
            transponder@ == (TransponderModel {
                uid: uid@,
                tr_type_rf_tec,
                tr_type_type_no,
                dsfid,
            }),
    {
        ObidTransponder { uid: uid_from_slice(uid), tr_type_rf_tec, tr_type_type_no, dsfid }
    }

    /// The serial number of the transponder.
    pub fn uid(&self) -> (uid: Vec<u8>)
        ensures
            uid@ == self@.uid,
    {
        slice_to_vec(uid_as_slice(&self.uid))
    }
}

/// The transponders of a vector as plain values.
pub open spec fn transponder_models(transponders: TransponderList) -> Seq<TransponderModel> {
    transponder_items(transponders).map_values(|transponder: ObidTransponder| transponder@)
}

impl TransponderList {
    /// The transponders of the list as plain values.
    pub open spec fn view(&self) -> Seq<TransponderModel> {
        transponder_models(*self)
    }

    /// A list without transponders.
    pub fn new() -> (transponders: TransponderList)
        ensures
            transponders@ == Seq::<TransponderModel>::empty(),
            transponder_items(transponders) == Seq::<ObidTransponder>::empty(),
    {
        transponders_new()
    }

    /// Adds a transponder at the end of the list.
    pub fn push(&mut self, transponder: ObidTransponder)
        ensures
            final(self)@ == old(self)@.push(transponder@),
            transponder_items(*final(self)) == transponder_items(*old(self)).push(transponder),
    {
        transponders_push(self, transponder);
    }

    /// The number of transponders in the list.
    pub fn len(&self) -> (len: usize)
        ensures
            len == self@.len(),
    {
        transponders_len(self)
    }

    /// The transponder at `index`, where the list is that long.
    pub fn get(&self, index: usize) -> (transponder: Option<&ObidTransponder>)
        ensures
            index < self@.len() <==> transponder is Some,
            transponder is Some ==> transponder->Some_0@ == self@[index as int],
    {
        if index < transponders_len(self) {
            Some(transponder_at(self, index))
        } else {
            None
        }
    }
}

/// A set of actuator blocks that is commanded as one unit.
#[derive(Debug)]
pub struct V0Fabric {
    /// The name that clients know the fabric by.
    pub name: String,
    /// The transponders of the fabric.
    pub transponders: TransponderList,
}

/// The identifier of a fabric with the given transponders: the serial
/// number of the first of its one or two transponders.
pub open spec fn identifier_of(transponders: Seq<TransponderModel>) -> Option<Seq<u8>> {
    if transponders.len() == 1 || transponders.len() == 2 {
        Some(transponders[0].uid)
    } else {
        None
    }
}

impl V0Fabric {
    /// The transponders of the fabric as plain values.
    pub open spec fn transponders(&self) -> Seq<TransponderModel> {
        transponder_models(self.transponders)
    }

    /// The fabric `name` with the given transponders.
    pub fn new(name: &str, transponders: TransponderList) -> (fabric: V0Fabric)
        ensures
            fabric.name@ == name@,
            fabric.transponders == transponders,
    {
        V0Fabric { name: String::from_str(name), transponders }
    }
}

impl Fabric for V0Fabric {
    open spec fn named(&self) -> Seq<char> {
        self.name@
    }

    open spec fn identified(&self) -> Option<Seq<u8>> {
        identifier_of(self.transponders())
    }

    open spec fn members(&self) -> nat {
        self.transponders().len()
    }

    fn name(&self) -> (name: String) {
        self.name.clone()
    }

    fn identifier(&self) -> (identifier: Result<Vec<u8>>) {
        let count = transponders_len(&self.transponders);
        if count == 1 || count == 2 {
            Ok(transponder_at(&self.transponders, 0).uid())
        } else {
            Err(InternalError::NoIdentifier(count))
        }
    }
}

} // verus!
