//! The non-volatile storage: initialization and erasure of its partition.
//!
//! Only the default partition is supported. Each operation has two halves:
//! the first decides whether the driver is to be called, the second takes
//! the driver's answer.
use vstd::prelude::*;
use crate::peripherals::NvsPeripherals;
use crate::status::{DriverStatus, RawStatus, StatusKind};

verus! {

#[non_exhaustive]
#[derive(Copy, Clone, PartialEq, Eq, Structural, Debug)]
pub enum NvsError {
    /// The partition is not the default partition
    InvalidPartitionId,
    /// The partition has no free pages left
    PartitionCorrupted,
    PartitionNotFound,
    /// The partition is in use and cannot be erased
    AlreadyInitialized,
    /// Any other refusal of the driver, with its status code
    IdfError(RawStatus),
}

/// Longest partition name, in bytes.
pub const MAX_PARTITION_ID_SIZE: usize = 16;

/// Names a partition. Without a name it is the default partition.
#[derive(Debug)]
pub struct PartitionId {
    name: Option<[u8; MAX_PARTITION_ID_SIZE]>,
}

impl PartitionId {
    /// Whether this is the default partition.
    pub closed spec fn is_default(&self) -> bool {
        self.name is None
    }

    /// The default partition.
    pub fn default() -> (id: Self)
        ensures
            id.is_default(),
    {
        Self { name: None }
    }
}

/// A call into the storage driver.
#[derive(Copy, Clone, PartialEq, Eq, Structural, Debug)]
pub enum NvsCommand {
    /// Initialize the default partition.
    FlashInit,
    /// Erase the default partition.
    FlashErase,
}

/// The storage. It knows whether its default partition is in use.
#[derive(Debug)]
pub struct Nvs {
    default_partition_initialized: bool,
}

/// An initialized partition.
#[derive(Debug)]
pub struct NvsPartition {
    _guard: (),
}

/// The error that a refused initialization leads to.
pub open spec fn init_error(status: DriverStatus) -> NvsError {
    match status.kind {
        StatusKind::NvsNoFreePages => NvsError::PartitionCorrupted,
        StatusKind::NvsNotFound => NvsError::PartitionNotFound,
        _ => NvsError::IdfError(status.code),
    }
}

/// The error that a refused erasure leads to.
pub open spec fn erase_error(status: DriverStatus) -> NvsError {
    match status.kind {
        StatusKind::NvsNotFound => NvsError::PartitionNotFound,
        _ => NvsError::IdfError(status.code),
    }
}

impl Nvs {
    /// Whether the default partition is in use.
    pub closed spec fn initialized(&self) -> bool {
        self.default_partition_initialized
    }

    /// The storage with its partition not in use.
    pub fn init(_peripherals: NvsPeripherals) -> (nvs: Self)
        ensures
            !nvs.initialized(),
    {
        Self { default_partition_initialized: false }
    }

    /// Tells whether the default partition is in use.
    pub fn is_initialized(&self) -> (initialized: bool)
        ensures
            initialized == self.initialized(),
    {
        self.default_partition_initialized
    }

    /// Begins the initialization of a partition: yields the driver call to
    /// make. Only the default partition can be initialized.
    pub fn init_partition(&self, id: &PartitionId) -> (result: Result<NvsCommand, NvsError>)
        ensures
            match result {
                Ok(command) => id.is_default() && command == NvsCommand::FlashInit,
                Err(error) => !id.is_default() && error == NvsError::InvalidPartitionId,
            },
    {
        match id.name {
            None => Ok(NvsCommand::FlashInit),
            Some(_) => Err(NvsError::InvalidPartitionId),
        }
    }

    /// Takes the driver's answer to the initialization. If the driver
    /// succeeded, the partition is in use from now on.
    pub fn finish_init_partition(&mut self, status: DriverStatus) -> (result: Result<
        NvsPartition,
        NvsError,
    >)
        ensures
            match result {
                Ok(_) => status.succeeded() && final(self).initialized(),
                Err(error) => !status.succeeded() && error == init_error(status) && *final(self)
                    == *old(self),
            },
    {
        match status.kind {
            StatusKind::Success => {
                self.default_partition_initialized = true;
                Ok(NvsPartition { _guard: () })
            },
            StatusKind::NvsNoFreePages => Err(NvsError::PartitionCorrupted),
            StatusKind::NvsNotFound => Err(NvsError::PartitionNotFound),
            _ => Err(NvsError::IdfError(status.code)),
        }
    }

    /// Takes the partition out of use.
    pub fn deinit_partition(&mut self, _partition: NvsPartition)
        ensures
            !final(self).initialized(),
    {
        self.default_partition_initialized = false
    }

    /// Begins the erasure of a partition: yields the driver call to make.
    /// A partition that is in use cannot be erased.
    pub fn erase_partition(&self, _id: &PartitionId) -> (result: Result<NvsCommand, NvsError>)
        ensures
            match result {
                Ok(command) => !self.initialized() && command == NvsCommand::FlashErase,
                Err(error) => self.initialized() && error == NvsError::AlreadyInitialized,
            },
    {
        if self.default_partition_initialized {
            Err(NvsError::AlreadyInitialized)
        } else {
            Ok(NvsCommand::FlashErase)
        }
    }

    /// Takes the driver's answer to the erasure. For a partition that is
    /// in use no erasure was due, and the answer counts for nothing.
    pub fn finish_erase_partition(&mut self, status: DriverStatus) -> (result: Result<
        (),
        NvsError,
    >)
        ensures
            match result {
                Ok(_) => !old(self).initialized() && status.succeeded(),
                Err(error) => error == if old(self).initialized() {
                    NvsError::AlreadyInitialized
                } else {
                    erase_error(status)
                } && (old(self).initialized() || !status.succeeded()),
            },
            *final(self) == *old(self),
    {
        if self.default_partition_initialized {
            return Err(NvsError::AlreadyInitialized);
        }
        match status.kind {
            StatusKind::Success => Ok(()),
            StatusKind::NvsNotFound => Err(NvsError::PartitionNotFound),
            _ => Err(NvsError::IdfError(status.code)),
        }
    }
}

} // verus!
