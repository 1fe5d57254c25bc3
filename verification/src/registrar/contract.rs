//! The entry points that the registrar contract offers to the host.
use vstd::prelude::*;
use crate::entry_points::{
    entry_points_view, group_entry_point, parameter, public_entry_point, AccessView, ClType,
    EntryPoint, EntryPointType, EntryPointView, Parameter,
};

verus! {

/// The registrar's entry points, as the host lists them.
pub open spec fn registrar_entry_points() -> Seq<EntryPointView> {
    seq![
        EntryPointView {
            name: "constructor"@,
            parameters: seq![("partners"@, ClType::List(Box::new(ClType::PublicKey)))],
            ret: ClType::Unit,
            access: AccessView::Groups(seq!["constructor"@]),
            entry_point_type: EntryPointType::Contract,
        },
        EntryPointView {
            name: "register"@,
            parameters: seq![("associate_public_key"@, ClType::Key), ("associate_type"@, ClType::U32)],
            ret: ClType::Unit,
            access: AccessView::Public,
            entry_point_type: EntryPointType::Contract,
        },
        EntryPointView {
            name: "unregister"@,
            parameters: seq![("associate_public_key"@, ClType::Key)],
            ret: ClType::Unit,
            access: AccessView::Public,
            entry_point_type: EntryPointType::Contract,
        },
        EntryPointView {
            name: "get_caller_association"@,
            parameters: seq![],
            ret: ClType::U32,
            access: AccessView::Public,
            entry_point_type: EntryPointType::Contract,
        },
        EntryPointView {
            name: "get_associate_type"@,
            parameters: seq![("associate_public_key"@, ClType::Key)],
            ret: ClType::U32,
            access: AccessView::Public,
            entry_point_type: EntryPointType::Contract,
        },
    ]
}

/// The registrar's entry points: `constructor`, which only the `constructor` group may call,
/// and the public `register`, `unregister`, `get_caller_association` and `get_associate_type`.
pub fn get_entry_points() -> (eps: Vec<EntryPoint>)
    ensures
        entry_points_view(eps@) == registrar_entry_points(),
        eps@.len() == 5,
        eps@[0]@.name == "constructor"@,
        eps@[0]@.access == AccessView::Groups(seq!["constructor"@]),
        forall|i: int| 1 <= i < eps@.len() ==> #[trigger] eps@[i]@.access == AccessView::Public,
{
    let mut eps: Vec<EntryPoint> = Vec::new();

    let mut constructor_params: Vec<Parameter> = Vec::new();
    constructor_params.push(parameter("partners", ClType::List(Box::new(ClType::PublicKey))));
    eps.push(group_entry_point("constructor", constructor_params, ClType::Unit, "constructor"));

    let mut register_params: Vec<Parameter> = Vec::new();
    register_params.push(parameter("associate_public_key", ClType::Key));
    register_params.push(parameter("associate_type", ClType::U32));
    eps.push(public_entry_point("register", register_params, ClType::Unit));

    let mut unregister_params: Vec<Parameter> = Vec::new();
    unregister_params.push(parameter("associate_public_key", ClType::Key));
    eps.push(public_entry_point("unregister", unregister_params, ClType::Unit));

    let caller_params: Vec<Parameter> = Vec::new();
    eps.push(public_entry_point("get_caller_association", caller_params, ClType::U32));

    let mut type_params: Vec<Parameter> = Vec::new();
    type_params.push(parameter("associate_public_key", ClType::Key));
    eps.push(public_entry_point("get_associate_type", type_params, ClType::U32));

    assert(entry_points_view(eps@) =~= registrar_entry_points()) by {
        assert(eps@[0]@.parameters =~= registrar_entry_points()[0].parameters);
        assert(eps@[1]@.parameters =~= registrar_entry_points()[1].parameters);
        assert(eps@[2]@.parameters =~= registrar_entry_points()[2].parameters);
        assert(eps@[3]@.parameters =~= registrar_entry_points()[3].parameters);
        assert(eps@[4]@.parameters =~= registrar_entry_points()[4].parameters);
    }
    eps
}

} // verus!
