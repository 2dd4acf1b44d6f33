use embedded_storage_sim::{
    FlashTimings, Operation, SimulatedNorFlash, SimulatedNorFlashBuilder, SpiType, Transaction,
    TransactionLogLevel,
};

type Small = SimulatedNorFlash<(), 1, 1, 16>;

fn read_all<O: Clone, const RS: usize, const WS: usize, const ES: usize>(
    flash: &mut SimulatedNorFlash<O, RS, WS, ES>,
    offset: u32,
    len: usize,
) -> Vec<u8> {
    let mut buf = vec![0u8; len];
    flash.read(offset, &mut buf[..]);
    buf
}

#[test]
fn new_device_is_erased() {
    let mut flash = Small::new(64);
    assert_eq!(flash.capacity(), 64);
    assert_eq!(flash.size(), 64);
    assert_eq!(flash.page_count(), 4);
    assert_eq!(read_all(&mut flash, 0, 64), vec![0xFF; 64]);
    assert_eq!(flash.page_erase_cycles(), &[0, 0, 0, 0]);
}

#[test]
fn write_then_read_ands_with_previous_contents() {
    let mut flash = Small::new(64);
    flash.write(4, &[0xF0, 0x0F]);
    flash.write(4, &[0x3C, 0xFF]);
    assert_eq!(read_all(&mut flash, 4, 2), vec![0x30, 0x0F]);
    assert_eq!(read_all(&mut flash, 3, 1), vec![0xFF]);
    assert_eq!(read_all(&mut flash, 6, 1), vec![0xFF]);
}

#[test]
fn repeated_write_cannot_set_bits() {
    let mut flash = Small::new(16);
    flash.write(0, &[0x00]);
    flash.write(0, &[0xFF]);
    assert_eq!(read_all(&mut flash, 0, 1), vec![0x00]);
}

#[test]
fn erase_restores_all_ones() {
    let mut flash = Small::new(64);
    flash.write(0, &[0u8; 64]);
    flash.erase(16, 48);
    let data = read_all(&mut flash, 0, 64);
    assert_eq!(&data[0..16], &[0u8; 16]);
    assert_eq!(&data[16..48], &[0xFFu8; 32]);
    assert_eq!(&data[48..64], &[0u8; 16]);
}

#[test]
fn page_cycles_count_each_covered_page_once() {
    let mut flash = Small::new(64);
    flash.erase(0, 48);
    assert_eq!(flash.page_erase_cycles(), &[1, 1, 1, 0]);
    flash.erase(16, 32);
    assert_eq!(flash.page_erase_cycles(), &[1, 2, 1, 0]);
    flash.erase(0, 64);
    assert_eq!(flash.page_erase_cycles(), &[2, 3, 2, 1]);
    assert_eq!(flash.pages_erased(), 8);
}

fn count_ones(bytes: &[u8]) -> u32 {
    bytes.iter().map(|b| b.count_ones()).sum()
}

fn count_zeros(bytes: &[u8]) -> u32 {
    bytes.iter().map(|b| b.count_zeros()).sum()
}

/// Erases page 0 `n` times; after each erase counts the stuck bits it can
/// see (zeros after the erase, ones after programming all zeros) and
/// returns the counts with the final readouts.
fn wear_page(seed: u64, n: usize) -> (Vec<u32>, Vec<u8>, Vec<u8>) {
    let mut flash = SimulatedNorFlashBuilder::new(8192)
        .with_minimum_erase_cycles(5)
        .with_failure_rate(3)
        .with_rng_seed(seed)
        .build::<(), 1, 1, 4096>();
    let mut counts = Vec::new();
    let mut after_erase = Vec::new();
    let mut after_zero = Vec::new();
    for _ in 0..n {
        flash.erase(0, 4096);
        after_erase = read_all(&mut flash, 0, 4096);
        flash.write(0, &vec![0u8; 4096]);
        after_zero = read_all(&mut flash, 0, 4096);
        counts.push(count_zeros(&after_erase) + count_ones(&after_zero));
    }
    assert_eq!(flash.page_erase_cycles(), &[n as u32, 0]);
    assert_eq!(read_all(&mut flash, 4096, 4096), vec![0xFF; 4096]);
    (counts, after_erase, after_zero)
}

#[test]
fn faults_appear_at_cycles_eight_and_eleven() {
    let (counts, _, _) = wear_page(7, 11);
    assert_eq!(counts, vec![0, 0, 0, 0, 0, 0, 0, 1, 1, 1, 2]);
}

#[test]
fn faults_are_reproducible_for_a_seed() {
    let first = wear_page(1234, 11);
    let second = wear_page(1234, 11);
    assert_eq!(first, second);
}

#[test]
fn stuck_bits_survive_writes_and_erases() {
    let mut flash = SimulatedNorFlashBuilder::new(4096)
        .with_minimum_erase_cycles(0)
        .with_failure_rate(1)
        .with_rng_seed(99)
        .build::<(), 1, 1, 4096>();
    for _ in 0..6 {
        flash.erase(0, 4096);
    }
    let erased = read_all(&mut flash, 0, 4096);
    flash.write(0, &vec![0u8; 4096]);
    let zeroed = read_all(&mut flash, 0, 4096);
    // bits stuck at 0 show after an erase, bits stuck at 1 after a write of zeros
    assert_eq!(count_zeros(&erased) + count_ones(&zeroed), 6);
    // no bit is stuck both ways
    for i in 0..4096 {
        assert_eq!(!erased[i] & zeroed[i], 0);
    }
    // a write can still clear any bit that is not stuck at 1
    flash.write(0, &vec![0u8; 4096]);
    assert_eq!(read_all(&mut flash, 0, 4096), zeroed);
}

#[test]
fn misaligned_requests_are_refused() {
    let flash = SimulatedNorFlash::<(), 4, 4, 16>::new(64);
    assert!(!flash.can_read(2, 4));
    assert!(!flash.can_read(4, 2));
    assert!(flash.can_read(4, 4));
    assert!(flash.can_read(8, 0));
    assert!(!flash.can_read(60, 8));
    assert!(!flash.can_write(2, 4));
    assert!(!flash.can_write(0, 3));
    assert!(flash.can_write(60, 4));
    assert!(!flash.can_erase(8, 16));
    assert!(!flash.can_erase(16, 16));
    assert!(!flash.can_erase(32, 16));
    assert!(!flash.can_erase(0, 80));
    assert!(flash.can_erase(0, 16));
    assert!(flash.can_erase(0, 64));
}

#[test]
fn zero_length_operations_are_recorded() {
    let mut flash = Small::new(32);
    flash.set_logging(TransactionLogLevel::Minimal);
    let mut empty: [u8; 0] = [];
    flash.read(16, &mut empty);
    flash.write(32, &[]);
    assert_eq!(flash.total_accesses(), 2);
    assert_eq!(flash.bytes_read(), 0);
    assert_eq!(flash.bytes_written(), 0);
    assert_eq!(flash.transactions().len(), 2);
}

#[test]
fn reset_restores_a_fresh_device() {
    let mut flash = SimulatedNorFlashBuilder::new(4096)
        .with_minimum_erase_cycles(0)
        .with_failure_rate(1)
        .with_rng_seed(5)
        .with_logging(TransactionLogLevel::Full)
        .build::<Operation, 1, 1, 4096>();
    flash.start_operation(Operation::MapStore);
    flash.erase(0, 4096);
    flash.erase(0, 4096);
    flash.write(0, &[0u8; 64]);
    flash.reset();
    assert_eq!(flash.bytes_read(), 0);
    assert_eq!(flash.bytes_written(), 0);
    assert_eq!(flash.pages_erased(), 0);
    assert_eq!(flash.total_accesses(), 0);
    assert_eq!(flash.total_operations(), 0);
    assert_eq!(flash.transactions().len(), 0);
    assert_eq!(flash.page_erase_cycles(), &[0]);
    assert_eq!(read_all(&mut flash, 0, 4096), vec![0xFF; 4096]);
    flash.write(0, &vec![0u8; 4096]);
    assert_eq!(read_all(&mut flash, 0, 4096), vec![0u8; 4096]);
}

#[test]
fn reset_failures_keeps_data_and_log() {
    let mut flash = SimulatedNorFlashBuilder::new(4096)
        .with_minimum_erase_cycles(0)
        .with_failure_rate(1)
        .with_rng_seed(11)
        .with_logging(TransactionLogLevel::Minimal)
        .build::<(), 1, 1, 4096>();
    for _ in 0..4 {
        flash.erase(0, 4096);
    }
    flash.write(0, &[0x5A; 8]);
    let log_len = flash.transactions().len();
    let written = flash.bytes_written();
    flash.reset_failures();
    assert_eq!(flash.page_erase_cycles(), &[0]);
    assert_eq!(flash.transactions().len(), log_len);
    assert_eq!(flash.bytes_written(), written);
    let data = read_all(&mut flash, 0, 4096);
    // with the faults gone only the programmed bytes differ from 0xFF,
    // except where a bit stuck at 0 was stored by the last erase
    assert!(count_zeros(&data[8..]) <= 4);
    // the wear settings stay: the next erase counts from zero and is due again
    flash.erase(0, 4096);
    assert_eq!(flash.page_erase_cycles(), &[1]);
    let erased = read_all(&mut flash, 0, 4096);
    assert!(count_zeros(&erased) <= 1);
}

#[test]
fn reset_stats_keeps_contents() {
    let mut flash = Small::new(32);
    flash.start_operation(());
    flash.write(0, &[0x12]);
    flash.erase(16, 32);
    flash.reset_stats();
    assert_eq!(flash.total_accesses(), 0);
    assert_eq!(flash.total_operations(), 0);
    assert_eq!(flash.page_erase_cycles(), &[0, 0]);
    assert_eq!(read_all(&mut flash, 0, 1), vec![0x12]);
}

#[test]
fn snapshot_is_unaffected_by_later_operations() {
    let mut flash = SimulatedNorFlash::<Operation, 1, 1, 16>::new(32);
    flash.start_operation(Operation::QueuePush);
    flash.write(0, &[0x0F]);
    let snap = flash.snapshot(true);
    flash.start_operation(Operation::QueuePop);
    flash.write(1, &[0x00]);
    flash.erase(16, 32);
    assert_eq!(snap.data.as_ref().unwrap()[0], 0x0F);
    assert_eq!(snap.data.as_ref().unwrap()[1], 0xFF);
    assert_eq!(snap.page_cycles, vec![0, 0]);
    assert_eq!(snap.bytes_written, 1);
    assert_eq!(snap.pages_erased, 0);
    assert_eq!(snap.total_accesses, 1);
    assert_eq!(snap.total_operations, 1);
    assert_eq!(snap.last_operation.as_deref(), Some("Push"));
    let later = flash.snapshot(false);
    assert!(later.data.is_none());
    assert_eq!(later.page_cycles, vec![0, 1]);
    assert_eq!(later.pages_erased, 1);
    assert_eq!(later.total_operations, 2);
    assert_eq!(later.last_operation.as_deref(), Some("Pop"));
}

#[test]
fn snapshot_without_tag_has_no_label() {
    let flash = SimulatedNorFlash::<Operation, 1, 1, 16>::new(16);
    let snap = flash.snapshot(false);
    assert!(snap.last_operation.is_none());
    assert_eq!(snap.transactions_len, 0);
}

#[test]
fn records_carry_the_current_tag() {
    let mut flash = SimulatedNorFlash::<Operation, 1, 1, 16>::new(32);
    flash.set_logging(TransactionLogLevel::Minimal);
    flash.write(0, &[1]);
    flash.start_operation(Operation::MapStore);
    flash.write(1, &[2]);
    flash.erase(0, 16);
    let log = flash.transactions();
    assert!(matches!(log[0], Transaction::Write { operation: None, offset: 0, .. }));
    assert!(matches!(
        log[1],
        Transaction::Write { operation: Some(Operation::MapStore), offset: 1, .. }
    ));
    assert!(matches!(
        log[2],
        Transaction::Erase { operation: Some(Operation::MapStore), from: 0, to: 16, data: None }
    ));
}

#[test]
fn write_data_only_level_keeps_written_bytes() {
    let mut flash = Small::new(32);
    flash.set_logging(TransactionLogLevel::WriteDataOnly);
    flash.write(0, &[0xAB, 0xCD]);
    let mut buf = [0u8; 2];
    flash.read(0, &mut buf);
    flash.erase(0, 16);
    let log = flash.transactions();
    match &log[0] {
        Transaction::Write { data, after_write, .. } => {
            assert_eq!(data.as_deref(), Some(&[0xAB, 0xCD][..]));
            assert!(after_write.is_none());
        }
        _ => panic!("expected a write record"),
    }
    match &log[1] {
        Transaction::Read { length, data, .. } => {
            assert_eq!(*length, 2);
            assert!(data.is_none());
        }
        _ => panic!("expected a read record"),
    }
    assert!(matches!(log[2], Transaction::Erase { data: None, .. }));
}

#[test]
fn full_level_keeps_every_payload() {
    let mut flash = Small::new(32);
    flash.set_logging(TransactionLogLevel::Full);
    flash.write(0, &[0xF0]);
    flash.write(0, &[0x3C]);
    let mut buf = [0u8; 1];
    flash.read(0, &mut buf);
    flash.erase(0, 16);
    let log = flash.transactions();
    match &log[1] {
        Transaction::Write { data, after_write, .. } => {
            assert_eq!(data.as_deref(), Some(&[0x3C][..]));
            assert_eq!(after_write.as_deref(), Some(&[0x30][..]));
        }
        _ => panic!("expected a write record"),
    }
    match &log[2] {
        Transaction::Read { data, .. } => assert_eq!(data.as_deref(), Some(&[0x30][..])),
        _ => panic!("expected a read record"),
    }
    match &log[3] {
        Transaction::Erase { data, from, to, .. } => {
            assert_eq!((*from, *to), (0, 16));
            let before = data.as_ref().unwrap();
            assert_eq!(before.len(), 16);
            assert_eq!(before[0], 0x30);
            assert_eq!(before[1], 0xFF);
        }
        _ => panic!("expected an erase record"),
    }
}

#[test]
fn log_level_off_keeps_no_payload() {
    let mut flash = Small::new(16);
    flash.write(0, &[0x01]);
    let mut buf = [0u8; 1];
    flash.read(0, &mut buf);
    let log = flash.transactions();
    assert_eq!(log.len(), 2);
    assert!(matches!(log[0], Transaction::Write { data: None, after_write: None, .. }));
    assert!(matches!(log[1], Transaction::Read { data: None, length: 1, .. }));
}

#[test]
fn engine_time_estimates_follow_counters() {
    let timings = FlashTimings::new(SpiType::QSPI, 62, 50, 40);
    let mut flash = Small::new(64);
    flash.write(0, &[0u8; 10]);
    flash.write(10, &[0u8; 6]);
    let mut buf = [0u8; 32];
    flash.read(0, &mut buf);
    flash.erase(0, 32);
    // 32 ns per byte, 640 ns per access
    assert_eq!(flash.read_time(&timings), 32 * 32 + 640);
    assert_eq!(flash.write_time(&timings), 16 * 32 + 2 * 640);
    assert_eq!(flash.erase_time(&timings), 2 * 50);
    assert_eq!(flash.total_time(&timings), 100);
}

#[test]
fn replaying_a_write_changes_nothing() {
    let mut flash = SimulatedNorFlash::<(), 1, 4, 16>::new(32);
    flash.write(4, &[0x12, 0x34, 0x56, 0x78]);
    let once = read_all(&mut flash, 0, 32);
    flash.write(4, &[0x12, 0x34, 0x56, 0x78]);
    assert_eq!(read_all(&mut flash, 0, 32), once);
    assert_eq!(flash.bytes_written(), 8);
}
