//! The errors that the bridge's own logic reports to the script side.

use vstd::prelude::*;

verus! {

/// An error of the bridge's logic.
#[derive(PartialEq, Eq, Structural, Debug, Clone, Copy)]
pub enum BridgeError {
    /// A workbook file was asked for before the workbook directory was set.
    WorkbookPathNotSet,
    /// A proxy request named an object id that the registry does not hold.
    ObjectLost,
    /// A property that was expected to be an object was a null object pointer.
    DispatchPropertyEmpty,
    /// A property that was expected to be an object was some other value.
    PropertyNotDispatch,
}

/// The text that the script side sees for an error.
pub open spec fn error_text(e: BridgeError) -> Seq<char> {
    match e {
        BridgeError::WorkbookPathNotSet => "Workbook path not set"@,
        BridgeError::ObjectLost => "Object lost"@,
        BridgeError::DispatchPropertyEmpty => "Dispatch property empty"@,
        BridgeError::PropertyNotDispatch => "Property is not dispatch"@,
    }
}

impl BridgeError {
    /// The message of this error, as the script side sees it.
    pub fn message(&self) -> (s: String)
        ensures
            s@ == error_text(*self),
    {
        match self {
            BridgeError::WorkbookPathNotSet => String::from_str("Workbook path not set"),
            BridgeError::ObjectLost => String::from_str("Object lost"),
            BridgeError::DispatchPropertyEmpty => String::from_str("Dispatch property empty"),
            BridgeError::PropertyNotDispatch => String::from_str("Property is not dispatch"),
        }
    }
}

} // verus!
