//! Core value types: on-ledger identifiers, object references, and the
//! failure taxonomy of transaction construction.

use vstd::prelude::*;

verus! {

/// Number of bytes in an on-ledger identifier (object identifiers and
/// account addresses are both fixed-length).
pub const ID_LEN: usize = 32;

/// Identifier of an addressable on-ledger object (a coin, a module, an NFT).
/// Immutable once assigned.
#[derive(Debug)]
pub struct ObjectId {
    bytes: Vec<u8>,
}

impl View for ObjectId {
    type V = Seq<u8>;

    closed spec fn view(&self) -> Seq<u8> {
        self.bytes@
    }
}

impl ObjectId {
    /// A well-formed identifier holds exactly `ID_LEN` bytes.
    pub open spec fn wf(&self) -> bool {
        self@.len() == ID_LEN
    }

    /// Builds an identifier from raw bytes; `Some` exactly when the length is
    /// `ID_LEN`.
    pub fn from_bytes(bytes: Vec<u8>) -> (r: Option<ObjectId>)
        ensures
            bytes@.len() == ID_LEN ==> (r matches Some(id) && id@ == bytes@ && id.wf()),
            bytes@.len() != ID_LEN ==> r is None,
    {
        if bytes.len() == ID_LEN {
            Some(ObjectId { bytes })
        } else {
            None
        }
    }

    /// Read access to the identifier bytes.
    pub fn as_bytes(&self) -> (r: &Vec<u8>)
        ensures
            r@ == self@,
    {
        &self.bytes
    }
}

impl Clone for ObjectId {
    /// A clone carries the same identifier bytes.
    fn clone(&self) -> (r: Self)
        ensures
            r@ == self@,
    {
        let bytes = self.bytes.clone();
        proof {
            assert forall|i: int| 0 <= i < bytes@.len() implies bytes@[i] == self.bytes@[i] by {
                assert(cloned::<u8>(self.bytes@[i], bytes@[i]));
            }
            assert(bytes@ =~= self.bytes@);
        }
        ObjectId { bytes }
    }
}

/// A recipient account address on the ledger.
#[derive(Debug)]
pub struct Address {
    bytes: Vec<u8>,
}

impl View for Address {
    type V = Seq<u8>;

    closed spec fn view(&self) -> Seq<u8> {
        self.bytes@
    }
}

impl Address {
    /// A well-formed address holds exactly `ID_LEN` bytes.
    pub open spec fn wf(&self) -> bool {
        self@.len() == ID_LEN
    }

    /// Builds an address from raw bytes; `Some` exactly when the length is
    /// `ID_LEN`.
    pub fn from_bytes(bytes: Vec<u8>) -> (r: Option<Address>)
        ensures
            bytes@.len() == ID_LEN ==> (r matches Some(a) && a@ == bytes@ && a.wf()),
            bytes@.len() != ID_LEN ==> r is None,
    {
        if bytes.len() == ID_LEN {
            Some(Address { bytes })
        } else {
            None
        }
    }

    /// Read access to the address bytes.
    pub fn as_bytes(&self) -> (r: &Vec<u8>)
        ensures
            r@ == self@,
    {
        &self.bytes
    }
}

impl Clone for Address {
    /// A clone carries the same address bytes.
    fn clone(&self) -> (r: Self)
        ensures
            r@ == self@,
    {
        let bytes = self.bytes.clone();
        proof {
            assert forall|i: int| 0 <= i < bytes@.len() implies bytes@[i] == self.bytes@[i] by {
                assert(cloned::<u8>(self.bytes@[i], bytes@[i]));
            }
            assert(bytes@ =~= self.bytes@);
        }
        Address { bytes }
    }
}

/// How a command names an object: either one that already exists on the
/// ledger, or the pending output of an earlier create command in the same
/// transaction, identified by that command's position.
#[derive(Debug)]
pub enum ObjectRef {
    /// An object that existed before the transaction began.
    Existing(ObjectId),
    /// The not-yet-materialized output of the create command at this position.
    PendingCreation(usize),
}

/// Every way transaction construction can fail. Each failure aborts the
/// current construction; none is recovered locally.
#[derive(Clone, Copy, Debug, PartialEq, Eq, Structural)]
pub enum BuildError {
    /// A value could not be canonically encoded (malformed or oversized text).
    Encoding,
    /// The module identifier did not resolve to an on-ledger object.
    ModuleNotFound,
    /// A command referenced an input position or created object that does not
    /// exist at its point in the command sequence.
    InvalidReference,
    /// Build was requested before inputs and commands were all supplied.
    Incomplete,
}

} // verus!
