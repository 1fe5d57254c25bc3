//! Errors with which the notarizer contract reverts.
use vstd::prelude::*;

verus! {

/// The reasons for which the notarizer reverts; each is reported to the host as a user error
/// with the number that `code` gives.
#[derive(Clone, Copy, Debug, PartialEq, Eq, Structural)]
pub enum NotarizerError {
    AssociateTypeNonExistant,
    InitDocumentsDictionaryURef,
    InitSubmitterDictionaryURef,
    OpenDocumentsDictionaryKey,
    OpenSubmitterDictionaryKey,
    OpenDocumentsDictionaryURef,
    OpenSubmitterDictionaryURef,
    NotarizeDocumentKeyNotHash,
    GetDocumentMetaKeyNotHash,
    NotarizeDocumentNoAccess,
    GetDocumentMetaNoAccessRights,
    GetRegistrarKeyNotFound,
    GetRegistrarReadError,
    GetRegistrarReadNotFound,
    GetRegistrarKeyNotURef,
    ConstructorGroupCreation,
    ConstructorGroupPopEmpty,
    ConstructorGroupRemove,
}

impl NotarizerError {
    /// The user error number of each reason.
    pub open spec fn spec_code(self) -> u16 {
        match self {
            NotarizerError::AssociateTypeNonExistant => 100,
            NotarizerError::InitDocumentsDictionaryURef => 110,
            NotarizerError::InitSubmitterDictionaryURef => 111,
            NotarizerError::OpenDocumentsDictionaryKey => 120,
            NotarizerError::OpenSubmitterDictionaryKey => 121,
            NotarizerError::OpenDocumentsDictionaryURef => 122,
            NotarizerError::OpenSubmitterDictionaryURef => 123,
            NotarizerError::NotarizeDocumentKeyNotHash => 130,
            NotarizerError::GetDocumentMetaKeyNotHash => 140,
            NotarizerError::NotarizeDocumentNoAccess => 150,
            NotarizerError::GetDocumentMetaNoAccessRights => 160,
            NotarizerError::GetRegistrarKeyNotFound => 170,
            NotarizerError::GetRegistrarReadError => 171,
            NotarizerError::GetRegistrarReadNotFound => 172,
            NotarizerError::GetRegistrarKeyNotURef => 173,
            NotarizerError::ConstructorGroupCreation => 180,
            NotarizerError::ConstructorGroupPopEmpty => 181,
            NotarizerError::ConstructorGroupRemove => 182,
        }
    }

    /// The number under which the host reports this error (`ApiError::User`).
    #[verifier::when_used_as_spec(spec_code)]
    pub fn code(self) -> (code: u16)
        ensures
            code == self.spec_code(),
    {
        match self {
            NotarizerError::AssociateTypeNonExistant => 100,
            NotarizerError::InitDocumentsDictionaryURef => 110,
            NotarizerError::InitSubmitterDictionaryURef => 111,
            NotarizerError::OpenDocumentsDictionaryKey => 120,
            NotarizerError::OpenSubmitterDictionaryKey => 121,
            NotarizerError::OpenDocumentsDictionaryURef => 122,
            NotarizerError::OpenSubmitterDictionaryURef => 123,
            NotarizerError::NotarizeDocumentKeyNotHash => 130,
            NotarizerError::GetDocumentMetaKeyNotHash => 140,
            NotarizerError::NotarizeDocumentNoAccess => 150,
            NotarizerError::GetDocumentMetaNoAccessRights => 160,
            NotarizerError::GetRegistrarKeyNotFound => 170,
            NotarizerError::GetRegistrarReadError => 171,
            NotarizerError::GetRegistrarReadNotFound => 172,
            NotarizerError::GetRegistrarKeyNotURef => 173,
            NotarizerError::ConstructorGroupCreation => 180,
            NotarizerError::ConstructorGroupPopEmpty => 181,
            NotarizerError::ConstructorGroupRemove => 182,
        }
    }
}

} // verus!
