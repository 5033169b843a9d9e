//! What can go wrong.

use vstd::prelude::*;

verus! {

/// Why a document cannot be loaded or kept.
#[derive(Debug)]
pub enum ConfigError {
    InvalidSaveState,
    UnexpectedObject,
    UnexpectedNodeType,
    UnexpectedConnection,
    /// The service answered with this status and this text.
    LoadingError(u16, String),
}

#[derive(Debug, Clone, Copy, PartialEq, Eq, Structural)]
pub enum DisplayError {
    InvalidState,
    ParentDoesntExist,
}

#[derive(Debug, Clone, Copy, PartialEq, Eq, Structural)]
pub enum EditingError {
    UnableToFindObject,
    ValueIsNotGpio,
    ValueIsNotCurrent,
    LineEnumIsNotLineNode,
    LineEnumIsNotLine,
    PoisonError,
    UnableToUpgradeNodeDropped,
    UnableToUpgradeConnectionDropped,
    LineTypeIsNone,
    NodeIsNotInput,
}

} // verus!
