//! The capability of keeping readings.
use crate::nucleo::types::SensorOutput;
use vstd::prelude::*;

verus! {

/// A place that keeps readings in the order in which they were saved.
pub trait Storage {
    /// Keeps one more reading.
    fn save(&mut self, data: SensorOutput) -> Result<(), StorageError>;

    /// Hands out every reading kept, oldest first.
    fn list(&self) -> Result<Vec<SensorOutput>, StorageError>;

    /// Forgets every reading kept.
    fn clear(&mut self) -> Result<(), StorageError>;
}

/// Why a store did not do what it was asked.
#[derive(Debug, Clone, Copy, PartialEq, Eq, Structural)]
pub enum StorageError {
    /// The reading could not be kept.
    SaveError,
    /// The readings could not be handed out.
    ReadError,
    /// The readings could not be forgotten.
    ClearError,
}

} // verus!
