//! Keys of the host's global state, as far as the contracts look into them.
use vstd::prelude::*;

verus! {

/// A key of the host's global state: the hash of a contract or a document, an unforgeable
/// reference (its address and access rights), or a key of any other kind.
#[derive(Clone, Copy, Debug)]
pub enum HostKey {
    Hash([u8; 32]),
    URef([u8; 32], u8),
    Other,
}

/// A dictionary of global state, by the address and access rights of its reference.
#[derive(Clone, Copy, Debug)]
pub struct DictionaryHandle {
    pub address: [u8; 32],
    pub access_rights: u8,
}

/// The dictionary that a named key refers to: a missing key is refused with `missing`, a key
/// that is not a reference with `not_uref`.
pub open spec fn spec_dictionary_handle<E>(key: Option<HostKey>, missing: E, not_uref: E) -> Result<(Seq<u8>, u8), E> {
    match key {
        None => Err(missing),
        Some(HostKey::URef(a, r)) => Ok((a@, r)),
        Some(_) => Err(not_uref),
    }
}

/// The dictionary that the named key `key` refers to; a missing key is refused with
/// `missing`, a key that is not a reference with `not_uref`.
pub fn dictionary_handle<E>(key: Option<HostKey>, missing: E, not_uref: E) -> (r: Result<DictionaryHandle, E>)
    ensures
        match spec_dictionary_handle(key, missing, not_uref) {
            Ok((a, rights)) => r matches Ok(h) && h.address@ == a && h.access_rights == rights,
            Err(e) => r == Err::<DictionaryHandle, E>(e),
        },
        key matches Some(HostKey::URef(a, rights)) ==> (r matches Ok(h) && h.address == a
            && h.access_rights == rights),
        key is None ==> r == Err::<DictionaryHandle, E>(missing),
        key matches Some(k) && !(k is URef) ==> r == Err::<DictionaryHandle, E>(not_uref),
{
    match key {
        None => Err(missing),
        Some(HostKey::URef(address, access_rights)) => Ok(DictionaryHandle { address, access_rights }),
        Some(_) => Err(not_uref),
    }
}

/// A named key that refers to a dictionary opens as that very dictionary: the handle has the
/// reference's address and access rights, unchanged.
pub proof fn lemma_named_reference_opens_unchanged<E>(address: [u8; 32], rights: u8, missing: E, not_uref: E)
    ensures
        spec_dictionary_handle(Some(HostKey::URef(address, rights)), missing, not_uref) == Ok::<
            (Seq<u8>, u8),
            E,
        >((address@, rights)),
        spec_dictionary_handle(None, missing, not_uref) == Err::<(Seq<u8>, u8), E>(missing),
        spec_dictionary_handle(Some(HostKey::Hash(address)), missing, not_uref) == Err::<
            (Seq<u8>, u8),
            E,
        >(not_uref),
        spec_dictionary_handle(Some(HostKey::Other), missing, not_uref) == Err::<(Seq<u8>, u8), E>(
            not_uref,
        ),
{
}

} // verus!
