use rustboy::mmu::MMU;

#[test]
fn get_and_set_legal_memory_test() {
    let mut mmu = MMU::new();
    mmu.set_to_memory(0x1234, 0xFF, false);
    assert_eq!(mmu.mem_map[0x1234], 0xFF);
    assert_eq!(mmu.get_from_memory(0x1234, false), 0xFF);
}
