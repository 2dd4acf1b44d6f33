use embedded_storage_sim::{
    median, AnySimulatedNorFlash, FlashTimings, Operation, SimulatedNorFlashR1W4E4k, SpiType,
    Transaction, TransactionLogLevel,
};

#[test]
fn timings_from_bus_parameters() {
    let quad = FlashTimings::new(SpiType::QSPI, 62, 50, 40);
    // 31 MB/s gives 32 ns per byte; 62 MHz gives 16 ns per cycle
    assert_eq!(quad.read_time(1000, 2), 32 * 1000 + 2 * 640);
    assert_eq!(quad.write_time(1000, 0), 32_000);
    assert_eq!(quad.erase_time(3, 2), 150);
    assert_eq!(quad.erase_time(0, 10_000), 6);
    let single = FlashTimings::new(SpiType::SPI, 62, 50, 40);
    // 7 MB/s gives 142 ns per byte
    assert_eq!(single.read_time(10, 0), 1420);
    let dual = FlashTimings::new(SpiType::DSPI, 100, 20, 8);
    // 25 MB/s gives 40 ns per byte; 100 MHz gives 10 ns per cycle
    assert_eq!(dual.write_time(5, 3), 5 * 40 + 3 * 80);
}

#[test]
fn total_time_rounds_each_part_to_milliseconds() {
    let quad = FlashTimings::new(SpiType::QSPI, 62, 50, 40);
    // reads: 1_999_999 ns -> 1 ms; writes: 3_200_640 ns -> 3 ms; erases: 2 * 50 ms
    let read_bytes = (1_999_999 - 640) / 32;
    let read_ns = quad.read_time(read_bytes, 1);
    assert_eq!(read_ns / 1_000_000, 1);
    assert_eq!(quad.total_time(read_bytes, 1, 100_000, 1, 2, 1), 1 + 3 + 100);
}

#[test]
fn spi_lanes() {
    assert_eq!(SpiType::SPI.lanes(), 1);
    assert_eq!(SpiType::DSPI.lanes(), 2);
    assert_eq!(SpiType::QSPI.lanes(), 4);
}

#[test]
fn read_record_payload_by_level() {
    let bytes = [1u8, 2, 3];
    for (level, kept) in [
        (TransactionLogLevel::Off, false),
        (TransactionLogLevel::Minimal, false),
        (TransactionLogLevel::WriteDataOnly, false),
        (TransactionLogLevel::ReadWriteData, true),
        (TransactionLogLevel::Full, true),
    ] {
        match Transaction::<()>::read(level, 8, 3, &bytes, None) {
            Transaction::Read { offset, length, data, operation } => {
                assert_eq!((offset, length), (8, 3));
                assert_eq!(data.is_some(), kept);
                if kept {
                    assert_eq!(data.unwrap(), vec![1, 2, 3]);
                }
                assert!(operation.is_none());
            }
            _ => panic!("expected a read record"),
        }
    }
}

#[test]
fn write_record_payload_by_level() {
    for (level, data_kept, after_kept) in [
        (TransactionLogLevel::Off, false, false),
        (TransactionLogLevel::Minimal, false, false),
        (TransactionLogLevel::WriteDataOnly, true, false),
        (TransactionLogLevel::ReadWriteData, true, false),
        (TransactionLogLevel::Full, true, true),
    ] {
        match Transaction::write(level, 4, &[0x0F], &[0x0E], Some(Operation::QueuePush)) {
            Transaction::Write { offset, data, after_write, operation } => {
                assert_eq!(offset, 4);
                assert_eq!(data.is_some(), data_kept);
                assert_eq!(after_write.is_some(), after_kept);
                if data_kept {
                    assert_eq!(data.unwrap(), vec![0x0F]);
                }
                if after_kept {
                    assert_eq!(after_write.unwrap(), vec![0x0E]);
                }
                assert_eq!(operation, Some(Operation::QueuePush));
            }
            _ => panic!("expected a write record"),
        }
    }
}

#[test]
fn erase_record_payload_by_level() {
    for (level, kept) in [
        (TransactionLogLevel::Off, false),
        (TransactionLogLevel::Minimal, false),
        (TransactionLogLevel::WriteDataOnly, false),
        (TransactionLogLevel::ReadWriteData, false),
        (TransactionLogLevel::Full, true),
    ] {
        match Transaction::<()>::erase(level, 0, 2, &[7, 9], None) {
            Transaction::Erase { from, to, data, .. } => {
                assert_eq!((from, to), (0, 2));
                assert_eq!(data, if kept { Some(vec![7, 9]) } else { None });
            }
            _ => panic!("expected an erase record"),
        }
    }
}

#[test]
fn operation_names() {
    assert_eq!(Operation::QueuePush.to_string(), "Push");
    assert_eq!(Operation::QueuePop.to_string(), "Pop");
    assert_eq!(Operation::MapStore.to_string(), "Store");
    assert_eq!(Operation::MapRemove.to_string(), "Remove");
    assert_eq!(Operation::MapFetch.to_string(), "Fetch");
}

#[test]
fn median_of_samples() {
    assert_eq!(median::<u64>(&[], 7), 7);
    assert_eq!(median(&[1u64, 5, 9], 0), 5);
    assert_eq!(median(&[1u64, 5, 9, 12], 0), 5);
    assert_eq!(median(&[4u64], 0), 4);
}

#[test]
fn any_flash_from_configuration() {
    let flash = SimulatedNorFlashR1W4E4k::<()>::new(8192);
    match AnySimulatedNorFlash::from(flash) {
        AnySimulatedNorFlash::R1W4E4k(f) => assert_eq!(f.page_count(), 2),
        _ => panic!("expected the R1W4E4k variant"),
    }
}
