//! The roles of associates, as the notarizer reads them from the registrar.
use vstd::prelude::*;
use crate::notarizer::error::NotarizerError;

verus! {

/// The role of an associate of the firm.
#[derive(Clone, Copy, Debug, PartialEq, Eq, Structural)]
pub enum AssociateType {
    NotMember,
    Partner,
    Judge,
    Lawyer,
    Clerk,
}

impl AssociateType {
    /// The number under which a role is stored: `NotMember` is 0, then 1 to 4 in order.
    pub open spec fn spec_value(self) -> u32 {
        match self {
            AssociateType::NotMember => 0,
            AssociateType::Partner => 1,
            AssociateType::Judge => 2,
            AssociateType::Lawyer => 3,
            AssociateType::Clerk => 4,
        }
    }

    /// The role stored under `u`, or the error for a number that names no role.
    pub open spec fn spec_from(u: u32) -> Result<AssociateType, NotarizerError> {
        if u == 0 {
            Ok(AssociateType::NotMember)
        } else if u == 1 {
            Ok(AssociateType::Partner)
        } else if u == 2 {
            Ok(AssociateType::Judge)
        } else if u == 3 {
            Ok(AssociateType::Lawyer)
        } else if u == 4 {
            Ok(AssociateType::Clerk)
        } else {
            Err(NotarizerError::AssociateTypeNonExistant)
        }
    }

    /// Reads a stored role number: 0 to 4 give the roles, any other number is refused with
    /// `AssociateTypeNonExistant`.
    pub fn from(u: u32) -> (r: Result<AssociateType, NotarizerError>)
        ensures
            r == Self::spec_from(u),
            r is Ok <==> u <= 4,
            r matches Ok(t) ==> t.spec_value() == u,
    {
        match u {
            0 => Ok(AssociateType::NotMember),
            1 => Ok(AssociateType::Partner),
            2 => Ok(AssociateType::Judge),
            3 => Ok(AssociateType::Lawyer),
            4 => Ok(AssociateType::Clerk),
            _ => Err(NotarizerError::AssociateTypeNonExistant),
        }
    }
}

impl From<AssociateType> for u32 {
    fn from(fin: AssociateType) -> (r: u32) {
        match fin {
            AssociateType::NotMember => 0,
            AssociateType::Partner => 1,
            AssociateType::Judge => 2,
            AssociateType::Lawyer => 3,
            AssociateType::Clerk => 4,
        }
    }
}

impl vstd::std_specs::convert::FromSpecImpl<AssociateType> for u32 {
    open spec fn obeys_from_spec() -> bool {
        true
    }

    open spec fn from_spec(v: AssociateType) -> u32 {
        v.spec_value()
    }
}

} // verus!
