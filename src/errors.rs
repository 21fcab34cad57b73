use vstd::prelude::*;

use vstd::string::StringExecFns;

verus! {

/// Errors reported by the service contracts, each with a detail message.
#[derive(Debug)]
pub enum ContractError {
    NotFound(String),
    Unauthorized(String),
    InvalidInput(String),
}

impl ContractError {
    /// The message shown for this error.
    pub open spec fn text(&self) -> Seq<char> {
        match self {
            ContractError::NotFound(m) => "Not Found: "@ + m@,
            ContractError::Unauthorized(m) => "Unauthorized: "@ + m@,
            ContractError::InvalidInput(m) => "Invalid Input: "@ + m@,
        }
    }

    pub fn to_string(&self) -> (r: String)
        ensures
            r@ == self.text(),
    {
        match self {
            ContractError::NotFound(m) => "Not Found: ".to_string().concat(m.as_str()),
            ContractError::Unauthorized(m) => "Unauthorized: ".to_string().concat(m.as_str()),
            ContractError::InvalidInput(m) => "Invalid Input: ".to_string().concat(m.as_str()),
        }
    }
}

} // verus!
