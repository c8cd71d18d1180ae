//! Work items: one inbound unit of work and its typed payload.
//!
//! The listener turns each inbound request into a [`WorkItem`] before
//! submitting it; the payload carries the operation kind, the key it acts
//! on, and the optional attribute it writes. Validation is decided here,
//! before the resource pool is ever touched.

use vstd::prelude::*;

use crate::status::ValidationFault;

verus! {

/// The one store operation a work item asks for: a single logical table
/// keyed by a name, with one scalar attribute.
#[derive(Clone, Copy, Debug, PartialEq, Eq, Structural)]
pub enum OpKind {
    /// Insert a row under the key with the given attribute.
    Insert,
    /// Fetch the row under the key.
    Select,
    /// Set the attribute of the row under the key.
    Update,
    /// Delete the row under the key.
    Delete,
    /// Do nothing: checkout and return alone are measured.
    Ping,
}

/// A request payload: which operation, on which key, with which attribute.
pub struct Payload {
    pub op: OpKind,
    pub name: String,
    pub age: Option<i32>,
}

/// The mathematical content of a [`Payload`].
#[verifier::ext_equal]
pub ghost struct PayloadModel {
    pub op: OpKind,
    pub name: Seq<char>,
    pub age: Option<i32>,
}

impl View for Payload {
    type V = PayloadModel;

    open spec fn view(&self) -> PayloadModel {
        PayloadModel { op: self.op, name: self.name@, age: self.age }
    }
}

/// Whether the operation acts on a key at all.
pub open spec fn uses_name(op: OpKind) -> bool {
    !(op is Ping)
}

/// Whether the operation writes the attribute and therefore needs one.
pub open spec fn requires_age(op: OpKind) -> bool {
    op is Insert || op is Update
}

/// What, if anything, makes the payload invalid. The key is checked first.
pub open spec fn payload_fault(p: PayloadModel) -> Option<ValidationFault> {
    if uses_name(p.op) && p.name.len() == 0 {
        Some(ValidationFault::EmptyName)
    } else if requires_age(p.op) && p.age is None {
        Some(ValidationFault::MissingAge)
    } else {
        None
    }
}

/// A payload is valid when nothing faults it.
pub open spec fn payload_valid(p: PayloadModel) -> bool {
    payload_fault(p) is None
}

impl Payload {
    /// Checks the payload: the key must be present for every operation that
    /// uses one, and the attribute for every operation that writes it.
    pub fn validate(&self) -> (r: Result<(), ValidationFault>)
        ensures
            r == (match payload_fault(self@) {
                Some(f) => Err::<(), ValidationFault>(f),
                None => Ok::<(), ValidationFault>(()),
            }),
            r is Ok <==> payload_valid(self@),
    {
        let needs_name = match self.op {
            OpKind::Ping => false,
            _ => true,
        };
        if needs_name && self.name.as_str().is_empty() {
            return Err(ValidationFault::EmptyName);
        }
        let needs_age = match self.op {
            OpKind::Insert | OpKind::Update => true,
            _ => false,
        };
        if needs_age && self.age.is_none() {
            return Err(ValidationFault::MissingAge);
        }
        Ok(())
    }
}

/// One inbound unit of work: an id the completion is matched under, the
/// arrival timestamp, and the typed payload.
pub struct WorkItem {
    pub id: u64,
    pub arrival_ms: u64,
    pub payload: Payload,
}

/// The mathematical content of a [`WorkItem`].
#[verifier::ext_equal]
pub ghost struct WorkItemModel {
    pub id: u64,
    pub arrival_ms: u64,
    pub payload: PayloadModel,
}

impl View for WorkItem {
    type V = WorkItemModel;

    open spec fn view(&self) -> WorkItemModel {
        WorkItemModel { id: self.id, arrival_ms: self.arrival_ms, payload: self.payload@ }
    }
}

} // verus!
