use console_core::global::Global;

#[test]
fn preinitialized_global_reads_back() {
    let g: Global<u32> = Global::new(42);
    assert_eq!(*g.get(), 42);
}

#[test]
fn empty_global_initializes_once() {
    let mut g: Global<u32> = Global::new_empty();
    g.init(7);
    assert_eq!(*g.get(), 7);
}

#[test]
fn global_payload_is_mutable() {
    let mut g: Global<u32> = Global::new(32);
    *g.get_mut() += 10;
    assert_eq!(*g.get(), 42);
}
