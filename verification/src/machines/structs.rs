use crate::utilities::{opt_string_eval, text_or_placeholder};
use vstd::prelude::*;

verus! {

/// The machines of a listing.
pub type Machines = Vec<Machine>;

/// A running machine as the control utility lists it. A machine without a
/// name is a transient one.
#[derive(Default, Debug, Clone, PartialEq, Eq)]
pub struct Machine {
    pub machine: Option<String>,
    pub class: Option<String>,
    pub service: Option<String>,
    pub os: Option<String>,
    pub version: Option<String>,
    pub addresses: Option<String>,
}

impl Machine {
    /// The name by which this machine is addressed and shown.
    pub open spec fn label(&self) -> Seq<char> {
        text_or_placeholder(self.machine)
    }

    /// A copy of this record.
    pub fn duplicate(&self) -> (copy: Machine)
        ensures
            copy == *self,
    {
        Machine {
            machine: self.machine.clone(),
            class: self.class.clone(),
            service: self.service.clone(),
            os: self.os.clone(),
            version: self.version.clone(),
            addresses: self.addresses.clone(),
        }
    }

    /// The name by which this machine is addressed and shown: the
    /// placeholder for a machine without one.
    pub fn name(&self) -> (text: String)
        ensures
            text@ == self.label(),
    {
        opt_string_eval(&self.machine)
    }
}

} // verus!
