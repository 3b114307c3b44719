//! Service definitions and the values from which they are created.

use vstd::prelude::*;

verus! {

/// The content of a service definition: its name and its description, as
/// sequences of characters.
pub struct SrvView {
    pub name: Seq<char>,
    pub desc: Seq<char>,
}

/// Basics of a service definition. It carries no identifier: the registry
/// assigns one when the definition is stored.
#[derive(Debug, PartialEq, Eq)]
pub struct Srv {
    pub name: String,
    pub desc: String,
}

impl View for Srv {
    type V = SrvView;

    open spec fn view(&self) -> SrvView {
        SrvView { name: self.name@, desc: self.desc@ }
    }
}

impl Clone for Srv {
    /// A copy with the same name and the same description.
    fn clone(&self) -> (copy: Self)
        ensures
            copy@ == self@,
    {
        Srv { name: self.name.clone(), desc: self.desc.clone() }
    }
}

/// The name and description handed in to create a service definition.
#[derive(Debug, PartialEq, Eq)]
pub struct NewSrv {
    pub name: String,
    pub desc: String,
}

impl View for NewSrv {
    type V = SrvView;

    open spec fn view(&self) -> SrvView {
        SrvView { name: self.name@, desc: self.desc@ }
    }
}

impl NewSrv {
    /// The service definition that holds exactly what this input holds.
    pub fn to_srv(&self) -> (srv: Srv)
        ensures
            srv@ == self@,
    {
        Srv { name: self.name.clone(), desc: self.desc.clone() }
    }
}

} // verus!
