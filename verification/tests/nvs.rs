use idf_hal::nvs::{Nvs, NvsCommand, NvsError, PartitionId};
use idf_hal::peripherals::Peripherals;
use idf_hal::status::{DriverStatus, StatusKind};

fn storage() -> Nvs {
    Nvs::init(Peripherals::new().take().unwrap().nvs)
}

fn accepted() -> DriverStatus {
    DriverStatus::new(StatusKind::Success, 0)
}

#[test]
fn init_of_the_default_partition() {
    let mut nvs = storage();
    assert!(!nvs.is_initialized());
    assert_eq!(nvs.init_partition(&PartitionId::default()), Ok(NvsCommand::FlashInit));
    assert!(nvs.finish_init_partition(accepted()).is_ok());
    assert!(nvs.is_initialized());
}

#[test]
fn refused_init_maps_to_its_error() {
    let mut nvs = storage();
    assert_eq!(
        nvs.finish_init_partition(DriverStatus::new(StatusKind::NvsNoFreePages, 4365)).unwrap_err(),
        NvsError::PartitionCorrupted
    );
    assert_eq!(
        nvs.finish_init_partition(DriverStatus::new(StatusKind::NvsNotFound, 4354)).unwrap_err(),
        NvsError::PartitionNotFound
    );
    assert_eq!(
        nvs.finish_init_partition(DriverStatus::new(StatusKind::NoMemory, 257)).unwrap_err(),
        NvsError::IdfError(257)
    );
    assert_eq!(
        nvs.finish_init_partition(DriverStatus::new(StatusKind::Other, -1)).unwrap_err(),
        NvsError::IdfError(-1)
    );
    assert!(!nvs.is_initialized());
}

#[test]
fn erase_of_a_partition_in_use_is_refused() {
    let mut nvs = storage();
    let partition = nvs.finish_init_partition(accepted()).unwrap();
    assert_eq!(nvs.erase_partition(&PartitionId::default()), Err(NvsError::AlreadyInitialized));
    nvs.deinit_partition(partition);
    assert!(!nvs.is_initialized());
    assert_eq!(nvs.erase_partition(&PartitionId::default()), Ok(NvsCommand::FlashErase));
}

#[test]
fn erase_maps_the_answer_of_the_driver() {
    let mut nvs = storage();
    assert_eq!(nvs.erase_partition(&PartitionId::default()), Ok(NvsCommand::FlashErase));
    assert_eq!(nvs.finish_erase_partition(accepted()), Ok(()));
    assert_eq!(
        nvs.finish_erase_partition(DriverStatus::new(StatusKind::NvsNotFound, 4354)),
        Err(NvsError::PartitionNotFound)
    );
    assert_eq!(
        nvs.finish_erase_partition(DriverStatus::new(StatusKind::NvsNoFreePages, 4365)),
        Err(NvsError::IdfError(4365))
    );
    assert_eq!(
        nvs.finish_erase_partition(DriverStatus::new(StatusKind::Other, 7)),
        Err(NvsError::IdfError(7))
    );
    assert!(!nvs.is_initialized());
}

#[test]
fn erase_of_a_partition_in_use_is_refused_whatever_the_driver_answers() {
    let mut nvs = storage();
    let partition = nvs.finish_init_partition(accepted()).unwrap();
    assert_eq!(nvs.finish_erase_partition(accepted()), Err(NvsError::AlreadyInitialized));
    assert_eq!(
        nvs.finish_erase_partition(DriverStatus::new(StatusKind::NvsNotFound, 4354)),
        Err(NvsError::AlreadyInitialized)
    );
    assert!(nvs.is_initialized());
    nvs.deinit_partition(partition);
    assert_eq!(nvs.finish_erase_partition(accepted()), Ok(()));
}
