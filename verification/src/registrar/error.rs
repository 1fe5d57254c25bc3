//! Errors with which the registrar contract reverts.
use vstd::prelude::*;

verus! {

/// The reasons for which the registrar reverts; each is reported to the host as a user error
/// with the number that `code` gives.
#[derive(Clone, Copy, Debug, PartialEq, Eq, Structural)]
pub enum RegistrarError {
    AssociateTypeNonExistant,
    InitAssociatesDictionary,
    InitPublicKeyDictionary,
    OpenAssociatesDictinonaryKey,
    OpenAssociatesDictinonaryURef,
    OpenPublicKeyDictinonaryKey,
    OpenPublicKeyDictinonaryURef,
    ConstructorGroupCreation,
    ConstructorGroupPopEmpty,
    ConstructorGroupRemove,
}

impl RegistrarError {
    /// The user error number of each reason.
    pub open spec fn spec_code(self) -> u16 {
        match self {
            RegistrarError::AssociateTypeNonExistant => 0,
            RegistrarError::InitAssociatesDictionary => 10,
            RegistrarError::InitPublicKeyDictionary => 11,
            RegistrarError::OpenAssociatesDictinonaryKey => 20,
            RegistrarError::OpenAssociatesDictinonaryURef => 21,
            RegistrarError::OpenPublicKeyDictinonaryKey => 22,
            RegistrarError::OpenPublicKeyDictinonaryURef => 23,
            RegistrarError::ConstructorGroupCreation => 30,
            RegistrarError::ConstructorGroupPopEmpty => 31,
            RegistrarError::ConstructorGroupRemove => 32,
        }
    }

    /// The number under which the host reports this error (`ApiError::User`).
    #[verifier::when_used_as_spec(spec_code)]
    pub fn code(self) -> (code: u16)
        ensures
            code == self.spec_code(),
    {
        match self {
            RegistrarError::AssociateTypeNonExistant => 0,
            RegistrarError::InitAssociatesDictionary => 10,
            RegistrarError::InitPublicKeyDictionary => 11,
            RegistrarError::OpenAssociatesDictinonaryKey => 20,
            RegistrarError::OpenAssociatesDictinonaryURef => 21,
            RegistrarError::OpenPublicKeyDictinonaryKey => 22,
            RegistrarError::OpenPublicKeyDictinonaryURef => 23,
            RegistrarError::ConstructorGroupCreation => 30,
            RegistrarError::ConstructorGroupPopEmpty => 31,
            RegistrarError::ConstructorGroupRemove => 32,
        }
    }
}

} // verus!
