//! The notarizer's entry points: who may use them, what they read and write, and where the
//! notarizer finds the registrar.
use vstd::prelude::*;
use crate::entry_points::{
    entry_points_view, group_entry_point, parameter, public_entry_point, AccessView, ClType,
    EntryPoint, EntryPointType, EntryPointView, Parameter,
};
use crate::keys::HostKey;
use crate::notarizer::associate_type::AssociateType;
use crate::notarizer::documents::{document_item_key, DocumentPut, Documents};
use crate::notarizer::error::NotarizerError;

verus! {

/// Whether a caller whose role number the registrar answered as `caller_association` may use
/// the notarizer: any role but `NotMember`; a number that names no role is refused.
pub open spec fn access_of(caller_association: u32) -> Result<bool, NotarizerError> {
    match AssociateType::spec_from(caller_association) {
        Ok(t) => Ok(t.spec_value() != 0),
        Err(e) => Err(e),
    }
}

/// The outcome of a check of access that refuses a caller without it with `denied`.
pub open spec fn access_check(caller_association: u32, denied: NotarizerError) -> Result<(), NotarizerError> {
    match access_of(caller_association) {
        Ok(true) => Ok(()),
        Ok(false) => Err(denied),
        Err(e) => Err(e),
    }
}

/// Whether the caller may use the notarizer, given the role number that the registrar
/// answered for it: `Ok(true)` for roles 1 to 4, `Ok(false)` for 0, and
/// `AssociateTypeNonExistant` for any number above 4.
pub fn can_have_access(caller_association: u32) -> (r: Result<bool, NotarizerError>)
    ensures
        r == access_of(caller_association),
        r is Ok <==> caller_association <= 4,
        r matches Ok(b) ==> b == (caller_association != 0),
{
    let association = AssociateType::from(caller_association)?;
    let number: u32 = association.into();
    Ok(number != 0)
}

/// The check of access that opens `notarize_document`: callers without access are refused
/// with `NotarizeDocumentNoAccess`.
pub fn notarize_document_access(caller_association: u32) -> (r: Result<(), NotarizerError>)
    ensures
        r == access_check(caller_association, NotarizerError::NotarizeDocumentNoAccess),
{
    if can_have_access(caller_association)? {
        Ok(())
    } else {
        Err(NotarizerError::NotarizeDocumentNoAccess)
    }
}

/// The check of access that opens `get_document_meta`: callers without access are refused
/// with `GetDocumentMetaNoAccessRights`.
pub fn get_document_meta_access(caller_association: u32) -> (r: Result<(), NotarizerError>)
    ensures
        r == access_check(caller_association, NotarizerError::GetDocumentMetaNoAccessRights),
{
    if can_have_access(caller_association)? {
        Ok(())
    } else {
        Err(NotarizerError::GetDocumentMetaNoAccessRights)
    }
}

/// The `notarize_document` entry point: a caller with access, naming a document by its hash,
/// gets the write that records `document_meta` for it. Access is checked first, then the kind
/// of key.
pub fn notarize_document(caller_association: u32, document_hash: &HostKey, document_meta: Option<
    Vec<String>,
>) -> (put: Result<DocumentPut, NotarizerError>)
    ensures
        access_check(caller_association, NotarizerError::NotarizeDocumentNoAccess) matches Err(e)
            ==> put == Err::<DocumentPut, NotarizerError>(e),
        access_check(caller_association, NotarizerError::NotarizeDocumentNoAccess) is Ok ==> (
        match document_item_key(*document_hash) {
            Some(k) => put matches Ok(p) && p.item_key@ == k && p.document_meta == document_meta,
            None => put is Err && put->Err_0 == NotarizerError::NotarizeDocumentKeyNotHash,
        }),
{
    notarize_document_access(caller_association)?;
    Documents::notarize_document(document_hash, document_meta)
}

/// The `get_document_meta` entry point: a caller with access, naming a document by its hash,
/// gets the item of the `documents` dictionary to read. Access is checked first, then the
/// kind of key.
pub fn get_document_meta(caller_association: u32, document_hash: &HostKey) -> (item_key: Result<
    String,
    NotarizerError,
>)
    ensures
        access_check(caller_association, NotarizerError::GetDocumentMetaNoAccessRights) matches Err(
            e,
        ) ==> item_key == Err::<String, NotarizerError>(e),
        access_check(caller_association, NotarizerError::GetDocumentMetaNoAccessRights) is Ok ==> (
        match document_item_key(*document_hash) {
            Some(k) => item_key matches Ok(i) && i@ == k,
            None => item_key == Err::<String, NotarizerError>(
                NotarizerError::GetDocumentMetaKeyNotHash,
            ),
        }),
{
    get_document_meta_access(caller_association)?;
    Documents::get_document_meta(document_hash)
}

/// Where the registrar's contract package is found.
#[derive(Clone, Copy, Debug)]
pub enum RegistrarLocation {
    /// The package hash itself.
    Package([u8; 32]),
    /// The package hash is stored under this reference (address and access rights).
    Stored([u8; 32], u8),
}

/// Where to find the registrar, given what the notarizer's named key `registrar` holds: a
/// hash is the package hash itself, a reference is read for it; a missing key is refused with
/// `GetRegistrarKeyNotFound`, a key of any other kind with `GetRegistrarKeyNotURef`.
pub fn get_registrar(registrar_key: Option<HostKey>) -> (location: Result<
    RegistrarLocation,
    NotarizerError,
>)
    ensures
        match registrar_key {
            None => location == Err::<RegistrarLocation, NotarizerError>(
                NotarizerError::GetRegistrarKeyNotFound,
            ),
            Some(HostKey::Hash(h)) => location matches Ok(RegistrarLocation::Package(p)) && p == h,
            Some(HostKey::URef(a, r)) => location matches Ok(RegistrarLocation::Stored(a2, r2)) && a2
                == a && r2 == r,
            Some(HostKey::Other) => location == Err::<RegistrarLocation, NotarizerError>(
                NotarizerError::GetRegistrarKeyNotURef,
            ),
        },
{
    match registrar_key {
        None => Err(NotarizerError::GetRegistrarKeyNotFound),
        Some(HostKey::URef(address, rights)) => Ok(RegistrarLocation::Stored(address, rights)),
        Some(HostKey::Hash(hash)) => Ok(RegistrarLocation::Package(hash)),
        Some(HostKey::Other) => Err(NotarizerError::GetRegistrarKeyNotURef),
    }
}

/// The registrar's package hash, given what the read of the reference under the named key
/// `registrar` gave: the stored hash; a failed read is refused with `GetRegistrarReadError`,
/// an absent value with `GetRegistrarReadNotFound`.
pub fn stored_registrar(read: Result<Option<[u8; 32]>, ()>) -> (package: Result<[u8; 32], NotarizerError>)
    ensures
        match read {
            Err(_) => package == Err::<[u8; 32], NotarizerError>(
                NotarizerError::GetRegistrarReadError,
            ),
            Ok(None) => package == Err::<[u8; 32], NotarizerError>(
                NotarizerError::GetRegistrarReadNotFound,
            ),
            Ok(Some(h)) => package == Ok::<[u8; 32], NotarizerError>(h),
        },
{
    match read {
        Err(_) => Err(NotarizerError::GetRegistrarReadError),
        Ok(None) => Err(NotarizerError::GetRegistrarReadNotFound),
        Ok(Some(h)) => Ok(h),
    }
}

/// The hash that the notarizer files under its named key `registrar`, given the key passed at
/// installation: its hash where it is a hash, else 32 zero bytes.
pub fn registrar_hash(registrar: HostKey) -> (hash: [u8; 32])
    ensures
        match registrar {
            HostKey::Hash(h) => hash == h,
            _ => hash@ == Seq::new(32, |i: int| 0u8),
        },
{
    match registrar {
        HostKey::Hash(hash) => hash,
        _ => {
            let zeros = [0u8; 32];
            assert(zeros@ =~= Seq::new(32, |i: int| 0u8));
            zeros
        },
    }
}

/// The notarizer's entry points, as the host lists them.
pub open spec fn notarizer_entry_points() -> Seq<EntryPointView> {
    seq![
        EntryPointView {
            name: "constructor"@,
            parameters: seq![],
            ret: ClType::Unit,
            access: AccessView::Groups(seq!["constructor"@]),
            entry_point_type: EntryPointType::Contract,
        },
        EntryPointView {
            name: "notarize_document"@,
            parameters: seq![
                ("document_hash"@, ClType::Key),
                ("document_meta"@, ClType::List(Box::new(ClType::String))),
            ],
            ret: ClType::Unit,
            access: AccessView::Public,
            entry_point_type: EntryPointType::Contract,
        },
        EntryPointView {
            name: "get_document_meta"@,
            parameters: seq![("document_hash"@, ClType::Key)],
            ret: ClType::List(Box::new(ClType::String)),
            access: AccessView::Public,
            entry_point_type: EntryPointType::Contract,
        },
    ]
}

/// The notarizer's entry points: `constructor`, which only the `constructor` group may call,
/// and the public `notarize_document` and `get_document_meta`.
pub fn entry_points() -> (eps: Vec<EntryPoint>)
    ensures
        entry_points_view(eps@) == notarizer_entry_points(),
        eps@.len() == 3,
        eps@[0]@.name == "constructor"@,
        eps@[0]@.access == AccessView::Groups(seq!["constructor"@]),
        forall|i: int| 1 <= i < eps@.len() ==> #[trigger] eps@[i]@.access == AccessView::Public,
{
    let mut eps: Vec<EntryPoint> = Vec::new();
    let constructor_params: Vec<Parameter> = Vec::new();
    eps.push(group_entry_point("constructor", constructor_params, ClType::Unit, "constructor"));

    let mut notarize_params: Vec<Parameter> = Vec::new();
    notarize_params.push(parameter("document_hash", ClType::Key));
    notarize_params.push(parameter("document_meta", ClType::List(Box::new(ClType::String))));
    eps.push(public_entry_point("notarize_document", notarize_params, ClType::Unit));

    let mut meta_params: Vec<Parameter> = Vec::new();
    meta_params.push(parameter("document_hash", ClType::Key));
    eps.push(
        public_entry_point("get_document_meta", meta_params, ClType::List(Box::new(ClType::String))),
    );

    assert(entry_points_view(eps@) =~= notarizer_entry_points()) by {
        assert(eps@[0]@.parameters =~= notarizer_entry_points()[0].parameters);
        assert(eps@[1]@.parameters =~= notarizer_entry_points()[1].parameters);
        assert(eps@[2]@.parameters =~= notarizer_entry_points()[2].parameters);
    }
    eps
}

} // verus!
