//! The notarized documents and the dictionary item in which each is kept.
//!
//! The notarizer keeps a `documents` dictionary in the host's global state. It maps the
//! base64 text of a document's hash to the metadata recorded for the document.
use vstd::prelude::*;
use crate::encoding::{base64_standard, base64_text};
use crate::keys::{dictionary_handle, spec_dictionary_handle, DictionaryHandle, HostKey};
use crate::notarizer::error::NotarizerError;

verus! {

/// Metadata of a document, by its texts.
pub open spec fn meta_view(meta: Option<Vec<String>>) -> Option<Seq<Seq<char>>> {
    match meta {
        Some(v) => Some(v@.map_values(|s: String| s@)),
        None => None,
    }
}

/// The item of the `documents` dictionary that belongs to `document_hash`: the base64 text of
/// the hash, where the key is a hash; none for a key of any other kind.
pub open spec fn document_item_key(document_hash: HostKey) -> Option<Seq<char>> {
    match document_hash {
        HostKey::Hash(hash) => Some(base64_standard(hash@)),
        _ => None,
    }
}

/// The metadata that a read of `item_key` answers in the `documents` dictionary `store`: the
/// stored metadata, or none where nothing is stored.
pub open spec fn stored_meta(store: Map<Seq<char>, Option<Seq<Seq<char>>>>, item_key: Seq<char>) -> Option<
    Seq<Seq<char>>,
> {
    if store.contains_key(item_key) {
        store[item_key]
    } else {
        None
    }
}

/// One write into the `documents` dictionary.
pub struct DocumentPut {
    pub item_key: String,
    pub document_meta: Option<Vec<String>>,
}

/// The notarizer's dictionaries, and its operations on them.
pub struct Documents {
    pub document: DictionaryHandle,
    pub submitter: DictionaryHandle,
}

impl Documents {
    /// The dictionaries that the named keys `documents` and `submitter` refer to, given what
    /// the lookups of the two names found. They are checked in that order: a missing key is
    /// refused with `OpenDocumentsDictionaryKey` or `OpenSubmitterDictionaryKey`, a key that is
    /// not a reference with `OpenDocumentsDictionaryURef` or `OpenSubmitterDictionaryURef`.
    pub fn open(document_key: Option<HostKey>, submitter_key: Option<HostKey>) -> (r: Result<
        Documents,
        NotarizerError,
    >)
        ensures
            match spec_dictionary_handle(
                document_key,
                NotarizerError::OpenDocumentsDictionaryKey,
                NotarizerError::OpenDocumentsDictionaryURef,
            ) {
                Err(e) => r == Err::<Documents, NotarizerError>(e),
                Ok((d, dr)) => match spec_dictionary_handle(
                    submitter_key,
                    NotarizerError::OpenSubmitterDictionaryKey,
                    NotarizerError::OpenSubmitterDictionaryURef,
                ) {
                    Err(e) => r == Err::<Documents, NotarizerError>(e),
                    Ok((s, sr)) => r matches Ok(docs) && docs.document.address@ == d
                        && docs.document.access_rights == dr && docs.submitter.address@ == s
                        && docs.submitter.access_rights == sr,
                },
            },
        (document_key, submitter_key) matches (Some(HostKey::URef(a, ar)), Some(HostKey::URef(p, pr)))
            ==> (r matches Ok(docs) && docs.document.address == a && docs.document.access_rights == ar
            && docs.submitter.address == p && docs.submitter.access_rights == pr),
    {
        let document = dictionary_handle(
            document_key,
            NotarizerError::OpenDocumentsDictionaryKey,
            NotarizerError::OpenDocumentsDictionaryURef,
        )?;
        let submitter = dictionary_handle(
            submitter_key,
            NotarizerError::OpenSubmitterDictionaryKey,
            NotarizerError::OpenSubmitterDictionaryURef,
        )?;
        Ok(Documents { document, submitter })
    }

    /// The item of the `documents` dictionary to read for `document_hash`; a key that is not a
    /// hash is refused with `GetDocumentMetaKeyNotHash`.
    pub fn get_document_meta(document_hash: &HostKey) -> (item_key: Result<String, NotarizerError>)
        ensures
            match document_item_key(*document_hash) {
                Some(k) => item_key matches Ok(i) && i@ == k,
                None => item_key == Err::<String, NotarizerError>(
                    NotarizerError::GetDocumentMetaKeyNotHash,
                ),
            },
    {
        match document_hash {
            HostKey::Hash(hash) => Ok(base64_text(hash)),
            _ => Err(NotarizerError::GetDocumentMetaKeyNotHash),
        }
    }

    /// The metadata that a read of the `documents` dictionary answers: what is stored, or none
    /// where the item is absent.
    pub fn meta_from_read(read: Option<Option<Vec<String>>>) -> (meta: Option<Vec<String>>)
        ensures
            meta == (match read {
                Some(m) => m,
                None => None,
            }),
    {
        match read {
            Some(m) => m,
            None => None,
        }
    }

    /// The write that records `document_meta` for `document_hash`; a key that is not a hash is
    /// refused with `NotarizeDocumentKeyNotHash`.
    pub fn notarize_document(document_hash: &HostKey, document_meta: Option<Vec<String>>) -> (put:
        Result<DocumentPut, NotarizerError>)
        ensures
            match document_item_key(*document_hash) {
                Some(k) => put matches Ok(p) && p.item_key@ == k && p.document_meta == document_meta,
                None => put is Err && put->Err_0 == NotarizerError::NotarizeDocumentKeyNotHash,
            },
    {
        match document_hash {
            HostKey::Hash(hash) => Ok(DocumentPut { item_key: base64_text(hash), document_meta }),
            _ => Err(NotarizerError::NotarizeDocumentKeyNotHash),
        }
    }
}

} // verus!
