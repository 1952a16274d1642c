use textui::loopdev::{
    create_loop_device, loop_init, DevName, DummyIndexNode, FileRange, GeneralBlockRange, LoopBus,
    LoopDevice, LoopDeviceDriver, LoopError, LoopManager, LBA_SIZE, LOOP_MAJOR, MAX_DEVICES,
};

#[test]
fn manager_hands_out_loop0_to_loop7() {
    let mut manager = LoopManager::new();
    for id in 0..MAX_DEVICES {
        assert!(!manager.is_taken(id));
        let name = manager.alloc_id().unwrap();
        assert_eq!(name.id(), id);
        assert_eq!(name.name(), format!("loop{}", id));
        assert!(manager.is_taken(id));
    }
    assert!(manager.alloc_id().is_none());
    assert!(manager.alloc_id().is_none());
    assert!(!manager.is_taken(MAX_DEVICES));
}

#[test]
fn freed_number_is_handed_out_again_lowest_first() {
    let mut manager = LoopManager::new();
    for _ in 0..5 {
        manager.alloc_id().unwrap();
    }
    manager.free_id(3);
    manager.free_id(1);
    assert!(!manager.is_taken(1));
    assert!(manager.is_taken(2));
    assert!(!manager.is_taken(3));
    assert_eq!(manager.alloc_id().unwrap().name(), "loop1");
    assert_eq!(manager.alloc_id().unwrap().name(), "loop3");
    assert_eq!(manager.alloc_id().unwrap().name(), "loop5");
}

#[test]
fn freeing_a_number_that_no_device_has_changes_nothing() {
    let mut manager = LoopManager::new();
    manager.alloc_id().unwrap();
    manager.free_id(MAX_DEVICES);
    manager.free_id(usize::MAX);
    manager.free_id(5);
    assert!(manager.is_taken(0));
    assert_eq!(manager.alloc_id().unwrap().id(), 1);
}

#[test]
fn dev_name_keeps_name_and_number() {
    let name = DevName::new(String::from("loop12"), 12);
    assert_eq!(name.name(), "loop12");
    assert_eq!(name.id(), 12);
    let copy = name.clone();
    assert_eq!(copy.name(), "loop12");
    assert_eq!(copy.id(), 12);
}

#[test]
fn new_device_takes_the_first_free_number() {
    let mut manager = LoopManager::new();
    let first = LoopDevice::new(&mut manager, Some(4096)).unwrap();
    let second = LoopDevice::new(&mut manager, Some(100)).unwrap();
    assert_eq!(first.dev_name().name(), "loop0");
    assert_eq!(second.dev_name().name(), "loop1");
    assert_eq!(first.file_size(), 4096);
    assert_eq!(second.file_size(), 100);
    assert!(!first.is_read_only());
}

#[test]
fn new_device_without_file_size_keeps_the_number_taken() {
    let mut manager = LoopManager::new();
    assert!(LoopDevice::new(&mut manager, None).is_none());
    assert!(manager.is_taken(0));
    assert_eq!(LoopDevice::new(&mut manager, Some(1)).unwrap().dev_name().id(), 1);
}

#[test]
fn new_device_without_free_number_fails() {
    let mut manager = LoopManager::new();
    for _ in 0..MAX_DEVICES {
        assert!(LoopDevice::new(&mut manager, Some(512)).is_some());
    }
    assert!(LoopDevice::new(&mut manager, Some(512)).is_none());
}

#[test]
fn set_file_takes_the_new_size_or_hands_the_failure_on() {
    let mut manager = LoopManager::new();
    let mut device = LoopDevice::new(&mut manager, Some(10)).unwrap();
    assert_eq!(device.set_file(Ok(2048)), Ok(()));
    assert_eq!(device.file_size(), 2048);
    assert_eq!(device.set_file(Err(LoopError::NotSupported)), Err(LoopError::NotSupported));
    assert_eq!(device.file_size(), 2048);
}

#[test]
fn read_only_device_refuses_writes() {
    let mut manager = LoopManager::new();
    let mut device = LoopDevice::new(&mut manager, Some(4096)).unwrap();
    assert_eq!(device.write_at_sync(2, 3), Ok(FileRange { offset: 1024, len: 1536 }));
    device.set_read_only(true);
    assert!(device.is_read_only());
    assert_eq!(device.write_at_sync(2, 3), Err(LoopError::ReadOnly));
    assert_eq!(device.read_at_sync(2, 3), FileRange { offset: 1024, len: 1536 });
    device.set_read_only(false);
    assert_eq!(device.write_at_sync(0, 0), Ok(FileRange { offset: 0, len: 0 }));
}

#[test]
fn file_failures_are_reported_as_input_output_errors() {
    assert_eq!(LoopDevice::io_result(Some(512)), Ok(512));
    assert_eq!(LoopDevice::io_result(Some(0)), Ok(0));
    assert_eq!(LoopDevice::io_result(None), Err(LoopError::Io));
}

#[test]
fn device_counts_its_blocks() {
    let mut manager = LoopManager::new();
    let mut device = LoopDevice::new(&mut manager, Some(1025)).unwrap();
    let metadata = device.metadata();
    assert_eq!(metadata.size, 1025);
    assert_eq!(metadata.blk_size, 512);
    assert_eq!(metadata.blocks, 3);
    assert_eq!(metadata.mode, 0o644);
    assert_eq!(metadata.nlinks, 1);
    assert_eq!(metadata.raw_dev_major, LOOP_MAJOR);
    assert_eq!(metadata.raw_dev_minor, 0);
    assert_eq!(device.disk_range(), GeneralBlockRange { lba_start: 0, lba_end: 2 });
    device.set_file(Ok(1024)).unwrap();
    assert_eq!(device.metadata().blocks, 2);
    assert_eq!(device.disk_range().lba_end, 2);
    device.set_file(Ok(0)).unwrap();
    assert_eq!(device.metadata().blocks, 0);
    assert_eq!(device.disk_range().lba_end, 0);
    assert_eq!(device.blk_size_log2(), 9);
    assert_eq!(device.block_size(), LBA_SIZE);
    assert_eq!(1usize << device.blk_size_log2(), LBA_SIZE);
}

#[test]
fn bus_matches_devices_named_loop() {
    let bus = LoopBus::new();
    assert_eq!(bus.match_device("loop0"), Ok(true));
    assert_eq!(bus.match_device("loop"), Ok(true));
    assert_eq!(bus.match_device("looping"), Ok(true));
    assert_eq!(bus.match_device("loo"), Ok(false));
    assert_eq!(bus.match_device(""), Ok(false));
    assert_eq!(bus.match_device("sda1"), Ok(false));
    assert_eq!(bus.match_device("Loop0"), Ok(false));
    assert_eq!(bus.match_device("lóop0"), Ok(false));
    assert_eq!(bus.name(), "loop");
    assert_eq!(bus.dev_name(), "loop");
    let _driver = LoopDeviceDriver::new();
}

#[test]
fn dummy_node_is_an_empty_block_device() {
    let node = DummyIndexNode::new(3);
    let metadata = node.metadata().unwrap();
    assert_eq!(metadata.inode_id, 3);
    assert_eq!(metadata.size, 0);
    assert_eq!(metadata.blocks, 0);
    assert_eq!(metadata.blk_size, 0);
    assert_eq!(metadata.mode, 0o644);
    assert_eq!(metadata.nlinks, 1);
    assert_eq!(metadata.raw_dev_major, 7);
    assert_eq!(metadata.raw_dev_minor, 3);
}

#[test]
fn create_loop_device_reports_a_missing_device() {
    let mut manager = LoopManager::new();
    for id in 0..MAX_DEVICES {
        let device = create_loop_device(&mut manager, Some(id * 512)).unwrap();
        assert_eq!(device.dev_name().id(), id);
        assert_eq!(device.file_size(), id * 512);
        assert_eq!(device.offset(), 0);
    }
    assert!(matches!(create_loop_device(&mut manager, Some(512)), Err(LoopError::NoDevice)));
    manager.free_id(6);
    assert!(matches!(create_loop_device(&mut manager, None), Err(LoopError::NoDevice)));
    assert!(manager.is_taken(6));
}

#[test]
fn loop_init_makes_eight_empty_devices() {
    let (mut manager, devices) = loop_init();
    assert_eq!(devices.len(), MAX_DEVICES);
    for (id, device) in devices.iter().enumerate() {
        assert_eq!(device.dev_name().name(), format!("loop{}", id));
        assert_eq!(device.dev_name().id(), id);
        assert_eq!(device.file_size(), 0);
        assert!(!device.is_read_only());
        assert!(manager.is_taken(id));
    }
    assert!(manager.alloc_id().is_none());
}

#[test]
fn device_cannot_be_used_as_a_file() {
    let mut manager = LoopManager::new();
    let device = LoopDevice::new(&mut manager, Some(4096)).unwrap();
    let mut buf = [1u8, 2, 3];
    assert_eq!(device.read_at(0, 3, &mut buf), Err(LoopError::NotSupported));
    assert_eq!(buf, [1, 2, 3]);
    assert_eq!(device.write_at(0, 3, &buf), Err(LoopError::NotSupported));
    assert_eq!(device.list(), Err(LoopError::NotSupported));
}
