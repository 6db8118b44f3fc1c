use dramasim::ram::{RandomAccessMemory, RAM};

#[test]
fn new_memory_is_zero() {
    let ram = RAM::new();
    for a in [0i64, 1, 5_000, 9_999] {
        assert_eq!(ram.read(a), 0);
    }
    assert_eq!(ram.fetch(9_999), 0);
}

#[test]
fn write_then_read() {
    let mut ram = RandomAccessMemory::new();
    ram.write(5, 42);
    assert_eq!(ram.read(5), 42);
    assert_eq!(ram.fetch(5), 42);
    assert_eq!(ram.read(4), 0);
    assert_eq!(ram.read(6), 0);
}

#[test]
fn signed_addresses_wrap() {
    let mut ram = RAM::new();
    ram.write(-1, 7);
    assert_eq!(ram.read(9_999), 7);
    assert_eq!(ram.read(-10_001), 7);
    assert_eq!(ram.read(19_999), 7);
    ram.write(10_003, 8);
    assert_eq!(ram.read(3), 8);
}

#[test]
fn unsigned_indices_wrap() {
    let mut ram = RAM::new();
    ram.place(10_000, 11);
    assert_eq!(ram.fetch(0), 11);
    ram.place(29_999, 12);
    assert_eq!(ram.fetch(9_999), 12);
    assert_eq!(ram.read(-1), 12);
}

#[test]
fn load_program_writes_each_pair() {
    let mut ram = RAM::new();
    ram.load_program(&vec![(0usize, 1_131_190_005i64), (1, 9_999_990_009), (5, 42)]);
    assert_eq!(ram.fetch(0), 1_131_190_005);
    assert_eq!(ram.fetch(1), 9_999_990_009);
    assert_eq!(ram.fetch(5), 42);
    assert_eq!(ram.fetch(2), 0);
}

#[test]
fn load_program_later_pair_wins() {
    let mut ram = RAM::new();
    ram.load_program(&vec![(3usize, 1i64), (10_003, 2)]);
    assert_eq!(ram.fetch(3), 2);
}
