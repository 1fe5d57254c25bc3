//! What the notarizer answers to the associates that the registrar files, and what a read of
//! a document gives back of a write.
use vstd::prelude::*;
use crate::encoding::{
    account_hash_of, lemma_base64_injective, lemma_lower_hex_injective, lower_hex,
    public_key_display,
};
use crate::entry_points::AccessView;
use crate::keys::HostKey;
use crate::registrar::contract::registrar_entry_points;
use crate::notarizer::associate_type::AssociateType;
use crate::notarizer::contract::{access_check, notarizer_entry_points};
use crate::notarizer::documents::{document_item_key, stored_meta};
use crate::notarizer::error::NotarizerError;
use crate::registrar::associates::{
    account_text, register_puts, unregister_puts, AssociateType as Role, RegistrarStore,
};
use crate::registrar::laws::{
    apart_from, deployed, lemma_history_decides_roles, lemma_key_text_not_hex,
    lemma_register_new_member, lemma_role_after_bounded, lemma_unregister_member, role_after,
    run_ops, shared_texts_only_among_partners, RegistrarOp,
};

verus! {

/// A role's number reads back as that role, and every number from 0 to 4 reads as the role
/// whose number it is; any other number is refused.
pub proof fn lemma_role_number_round_trip(t: AssociateType, u: u32)
    ensures
        AssociateType::spec_from(t.spec_value()) == Ok::<AssociateType, NotarizerError>(t),
        u <= 4 ==> (AssociateType::spec_from(u) matches Ok(r) && r.spec_value() == u),
        u > 4 ==> AssociateType::spec_from(u) == Err::<AssociateType, NotarizerError>(
            NotarizerError::AssociateTypeNonExistant,
        ),
{
}

/// Only members have access: a caller has it exactly when the registrar answers a role from 1
/// to 4; role 0 is refused with the entry point's own error, any other number with
/// `AssociateTypeNonExistant`.
pub proof fn lemma_access_exactly_for_members(caller_association: u32, denied: NotarizerError)
    ensures
        access_check(caller_association, denied) is Ok <==> 1 <= caller_association <= 4,
        caller_association == 0 ==> access_check(caller_association, denied) == Err::<
            (),
            NotarizerError,
        >(denied),
        caller_association > 4 ==> access_check(caller_association, denied) == Err::<
            (),
            NotarizerError,
        >(NotarizerError::AssociateTypeNonExistant),
{
}

/// An associate that the registrar registers (from a state in which its key holds no role)
/// with any role but `NotMember` may then notarize documents and read their metadata, as the
/// notarizer asks the registrar for the role of the caller's account.
pub proof fn lemma_registered_associate_has_access(store: RegistrarStore, key: Seq<u8>, role: Role)
    requires
        store.association_type(public_key_display(key)) == 0,
        role != Role::NotMember,
    ensures
        ({
            let after = store.put_all(
                register_puts(
                    store.association_type(public_key_display(key)),
                    key,
                    role.spec_value(),
                ),
            );
            &&& access_check(
                after.association_type(account_text(key)),
                NotarizerError::NotarizeDocumentNoAccess,
            ) == Ok::<(), NotarizerError>(())
            &&& access_check(
                after.association_type(account_text(key)),
                NotarizerError::GetDocumentMetaNoAccessRights,
            ) == Ok::<(), NotarizerError>(())
        }),
{
    lemma_register_new_member(store, key, role);
}

/// An associate whose registration the registrar removes can no longer notarize: the
/// notarizer refuses it with `NotarizeDocumentNoAccess`, and a read of metadata with
/// `GetDocumentMetaNoAccessRights`.
pub proof fn lemma_unregistered_associate_loses_access(store: RegistrarStore, key: Seq<u8>)
    requires
        store.association_type(public_key_display(key)) != 0,
    ensures
        ({
            let after = store.put_all(
                unregister_puts(store.association_type(public_key_display(key)), key),
            );
            &&& access_check(
                after.association_type(account_text(key)),
                NotarizerError::NotarizeDocumentNoAccess,
            ) == Err::<(), NotarizerError>(NotarizerError::NotarizeDocumentNoAccess)
            &&& access_check(
                after.association_type(account_text(key)),
                NotarizerError::GetDocumentMetaNoAccessRights,
            ) == Err::<(), NotarizerError>(NotarizerError::GetDocumentMetaNoAccessRights)
        }),
{
    lemma_unregister_member(store, key);
}

/// A caller whose account holds no role in the registrar (one that was never registered) is
/// refused by the notarizer.
pub proof fn lemma_unknown_caller_refused(store: RegistrarStore, account_item: Seq<char>)
    requires
        !store.associates.contains_key(account_item),
    ensures
        access_check(store.association_type(account_item), NotarizerError::NotarizeDocumentNoAccess)
            == Err::<(), NotarizerError>(NotarizerError::NotarizeDocumentNoAccess),
{
}

/// A read of a document's metadata gives back what the last notarization of the same hash
/// recorded: the write and the read address the same item of the `documents` dictionary.
pub proof fn lemma_read_after_notarize(
    store: Map<Seq<char>, Option<Seq<Seq<char>>>>,
    hash: [u8; 32],
    meta: Option<Seq<Seq<char>>>,
)
    ensures
        document_item_key(HostKey::Hash(hash)) is Some,
        stored_meta(
            store.insert(document_item_key(HostKey::Hash(hash))->Some_0, meta),
            document_item_key(HostKey::Hash(hash))->Some_0,
        ) == meta,
{
}

/// Notarizing one document leaves what a read of any other document gives back: documents with
/// different hashes are kept under different items.
pub proof fn lemma_documents_kept_apart(
    store: Map<Seq<char>, Option<Seq<Seq<char>>>>,
    hash: [u8; 32],
    other: [u8; 32],
    meta: Option<Seq<Seq<char>>>,
)
    requires
        hash@ != other@,
    ensures
        document_item_key(HostKey::Hash(hash)) != document_item_key(HostKey::Hash(other)),
        stored_meta(
            store.insert(document_item_key(HostKey::Hash(hash))->Some_0, meta),
            document_item_key(HostKey::Hash(other))->Some_0,
        ) == stored_meta(store, document_item_key(HostKey::Hash(other))->Some_0),
{
    if document_item_key(HostKey::Hash(hash)) == document_item_key(HostKey::Hash(other)) {
        lemma_base64_injective(hash@, other@);
    }
}

/// After the deployment and any history of registrations and removals over keys of which
/// only partners that no operation names share a text, the notarizer lets the holder of such a key in exactly when the
/// history leaves it a role: it is a partner, or was registered with a role other than
/// `NotMember`, and was not removed since. Without a role it is refused with
/// `NotarizeDocumentNoAccess`.
pub proof fn lemma_history_decides_access(
    partners: Seq<Seq<u8>>,
    ops: Seq<RegistrarOp>,
    keys: Set<Seq<u8>>,
    key: Seq<u8>,
)
    requires
        shared_texts_only_among_partners(keys, partners, ops),
        forall|i: int| 0 <= i < partners.len() ==> keys.contains(#[trigger] partners[i]),
        forall|i: int| 0 <= i < ops.len() ==> keys.contains(#[trigger] ops[i].key()),
        keys.contains(key),
    ensures
        ({
            let lookup = run_ops(deployed(partners), ops).association_type(account_text(key));
            &&& access_check(lookup, NotarizerError::NotarizeDocumentNoAccess) is Ok
                <==> role_after(partners, ops, key) != 0
            &&& role_after(partners, ops, key) == 0 ==> access_check(
                lookup,
                NotarizerError::NotarizeDocumentNoAccess,
            ) == Err::<(), NotarizerError>(NotarizerError::NotarizeDocumentNoAccess)
        }),
{
    lemma_history_decides_roles(partners, ops, keys);
    lemma_role_after_bounded(partners, ops, key);
    let s = run_ops(deployed(partners), ops);
    let role = |k: Seq<u8>| role_after(partners, ops, k);
    assert(s.association_type(public_key_display(key)) == role(key));
    assert(s.association_type(account_text(key)) == role_after(partners, ops, key));
}

/// After the deployment and any history over keys of which only partners that no operation
/// names share a text, a caller
/// whose account is the account of none of those keys is refused by the notarizer.
pub proof fn lemma_history_refuses_strangers(
    partners: Seq<Seq<u8>>,
    ops: Seq<RegistrarOp>,
    keys: Set<Seq<u8>>,
    caller: [u8; 32],
)
    requires
        shared_texts_only_among_partners(keys, partners, ops),
        forall|i: int| 0 <= i < partners.len() ==> keys.contains(#[trigger] partners[i]),
        forall|i: int| 0 <= i < ops.len() ==> keys.contains(#[trigger] ops[i].key()),
        forall|k: Seq<u8>| keys.contains(k) ==> account_hash_of(k) != caller@,
    ensures
        access_check(
            run_ops(deployed(partners), ops).association_type(lower_hex(caller@)),
            NotarizerError::NotarizeDocumentNoAccess,
        ) == Err::<(), NotarizerError>(NotarizerError::NotarizeDocumentNoAccess),
{
    lemma_history_decides_roles(partners, ops, keys);
    let x = lower_hex(caller@);
    assert forall|k: Seq<u8>| keys.contains(k) implies apart_from(x, k) by {
        lemma_key_text_not_hex(k, caller@);
        if x == account_text(k) {
            lemma_lower_hex_injective(caller@, account_hash_of(k));
        }
    }
}

/// Each contract's constructor may be called only by the user group `constructor`, the group
/// that the installation creates for its one call of the constructor and then empties; every
/// other entry point is open to anyone.
pub proof fn lemma_constructors_reserved_for_installation_group()
    ensures
        notarizer_entry_points()[0].name == "constructor"@,
        notarizer_entry_points()[0].access == AccessView::Groups(seq!["constructor"@]),
        forall|i: int|
            0 <= i < notarizer_entry_points().len() && #[trigger] notarizer_entry_points()[i].access
                != AccessView::Public ==> i == 0,
        registrar_entry_points()[0].name == "constructor"@,
        registrar_entry_points()[0].access == AccessView::Groups(seq!["constructor"@]),
        forall|i: int|
            0 <= i < registrar_entry_points().len() && #[trigger] registrar_entry_points()[i].access
                != AccessView::Public ==> i == 0,
{
}

} // verus!
