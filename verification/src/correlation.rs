//! The correlation record: the identifier and routing markers of the most
//! recently observed inbound command, used to tell an acknowledgment of the
//! last command apart from an unsolicited report.

use vstd::prelude::*;

use crate::payload::CommandFields;

verus! {

/// The single-slot correlation record. Every field defaults to zero and is
/// overwritten only when the corresponding key is present in an inbound
/// command; an absent key leaves the prior value intact.
#[derive(Debug, PartialEq, Eq, Clone, Copy)]
pub struct CorrelationRecord {
    pub pending_id: u64,
    pub destination: u64,
    pub origin: u64,
}

/// Sticky update of one record by one set of parsed fields: each present
/// field overwrites its slot, each absent field leaves it unchanged.
pub open spec fn spec_apply(rec: CorrelationRecord, fields: CommandFields) -> CorrelationRecord {
    (CorrelationRecord {
        pending_id: if fields.id is Some { fields.id->0 } else { rec.pending_id },
        destination: if fields.to is Some { fields.to->0 } else { rec.destination },
        origin: if fields.from is Some { fields.from->0 } else { rec.origin },
    })
}

/// Sticky update by the outcome of parsing a payload: a payload that is not
/// a valid document leaves the record untouched.
pub open spec fn spec_absorb(rec: CorrelationRecord, fields: Option<CommandFields>) -> CorrelationRecord {
    match fields {
        Some(f) => spec_apply(rec, f),
        None => rec,
    }
}

impl CorrelationRecord {
    /// A fresh record with every field zero.
    pub fn new() -> (r: CorrelationRecord)
        ensures
            r == (CorrelationRecord { pending_id: 0, destination: 0, origin: 0 }),
    {
        CorrelationRecord { pending_id: 0, destination: 0, origin: 0 }
    }

    /// Sticky update from the fields of one parsed command.
    pub fn apply(&mut self, fields: &CommandFields)
        ensures
            *final(self) == spec_apply(*old(self), *fields),
    {
        if let Some(id) = fields.id {
            self.pending_id = id;
        }
        if let Some(to) = fields.to {
            self.destination = to;
        }
        if let Some(from) = fields.from {
            self.origin = from;
        }
    }
}

} // verus!
