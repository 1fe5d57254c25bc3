//! Descriptions of the entry points that a contract offers to the host: their names, the
//! names and types of their arguments, what they return and who may call them.
use vstd::prelude::*;

verus! {

/// The value types that the contracts' entry points take and return.
pub enum ClType {
    Unit,
    U32,
    Key,
    PublicKey,
    String,
    List(Box<ClType>),
}

/// One named argument of an entry point.
pub struct Parameter {
    pub name: String,
    pub cl_type: ClType,
}

/// Who may call an entry point: anyone, or the holders of one of the named user groups.
pub enum Access {
    Public,
    Groups(Vec<String>),
}

/// Where an entry point runs: in the caller's session, or in the contract's own context.
#[derive(Clone, Copy, Debug, PartialEq, Eq, Structural)]
pub enum EntryPointType {
    Session,
    Contract,
}

/// An entry point of a contract.
pub struct EntryPoint {
    pub name: String,
    pub parameters: Vec<Parameter>,
    pub ret: ClType,
    pub access: Access,
    pub entry_point_type: EntryPointType,
}

/// An `Access` by its texts.
pub enum AccessView {
    Public,
    Groups(Seq<Seq<char>>),
}

/// An `EntryPoint` by its texts.
pub struct EntryPointView {
    pub name: Seq<char>,
    pub parameters: Seq<(Seq<char>, ClType)>,
    pub ret: ClType,
    pub access: AccessView,
    pub entry_point_type: EntryPointType,
}

impl View for Access {
    type V = AccessView;

    open spec fn view(&self) -> AccessView {
        match self {
            Access::Public => AccessView::Public,
            Access::Groups(groups) => AccessView::Groups(groups@.map_values(|g: String| g@)),
        }
    }
}

impl View for EntryPoint {
    type V = EntryPointView;

    open spec fn view(&self) -> EntryPointView {
        EntryPointView {
            name: self.name@,
            parameters: self.parameters@.map_values(|p: Parameter| (p.name@, p.cl_type)),
            ret: self.ret,
            access: self.access@,
            entry_point_type: self.entry_point_type,
        }
    }
}

/// The entry points of a list, by their views.
pub open spec fn entry_points_view(eps: Seq<EntryPoint>) -> Seq<EntryPointView> {
    eps.map_values(|e: EntryPoint| e@)
}

/// A parameter named `name` of type `cl_type`.
pub fn parameter(name: &str, cl_type: ClType) -> (p: Parameter)
    ensures
        p.name@ == name@,
        p.cl_type == cl_type,
{
    Parameter { name: String::from_str(name), cl_type }
}

/// An entry point, running in the contract's context, that only the holders of the user group
/// `group` may call.
pub fn group_entry_point(name: &str, parameters: Vec<Parameter>, ret: ClType, group: &str) -> (e:
    EntryPoint)
    ensures
        e@.name == name@,
        e.parameters == parameters,
        e.ret == ret,
        e@.access == AccessView::Groups(seq![group@]),
        e.entry_point_type == EntryPointType::Contract,
{
    let mut groups: Vec<String> = Vec::new();
    groups.push(String::from_str(group));
    assert(groups@.map_values(|g: String| g@) =~= seq![group@]);
    EntryPoint { name: String::from_str(name), parameters, ret, access: Access::Groups(groups),
        entry_point_type: EntryPointType::Contract,
    }
}

/// An entry point, running in the contract's context, that anyone may call.
pub fn public_entry_point(name: &str, parameters: Vec<Parameter>, ret: ClType) -> (e: EntryPoint)
    ensures
        e@.name == name@,
        e.parameters == parameters,
        e.ret == ret,
        e@.access == AccessView::Public,
        e.entry_point_type == EntryPointType::Contract,
{
    EntryPoint {
        name: String::from_str(name),
        parameters,
        ret,
        access: Access::Public,
        entry_point_type: EntryPointType::Contract,
    }
}

} // verus!
