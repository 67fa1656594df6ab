use fpga_netlist::string_table::VecIndexReference;

fn table() -> Vec<String> {
    vec!["SLICE_X0Y0".to_string(), "A6LUT".to_string(), "O6".to_string()]
}

#[test]
fn new_points_at_index() {
    let r: VecIndexReference<String> = VecIndexReference::new(2);
    assert_eq!(r.index, 2);
}

#[test]
fn read_value_gives_entry() {
    let t = table();
    let r: VecIndexReference<String> = VecIndexReference::new(1);
    assert_eq!(r.read_value(&t), "A6LUT");
}

#[test]
fn write_value_hands_back_previous_entry() {
    let mut t = table();
    let r: VecIndexReference<String> = VecIndexReference::new(0);
    let previous = r.write_value(&mut t, "SLICE_X1Y0".to_string());
    assert_eq!(previous, "SLICE_X0Y0");
    assert_eq!(t, vec!["SLICE_X1Y0".to_string(), "A6LUT".to_string(), "O6".to_string()]);
}

#[test]
fn read_after_write_through_another_reference() {
    let mut t = table();
    let writer: VecIndexReference<String> = VecIndexReference::new(2);
    let reader: VecIndexReference<String> = VecIndexReference::new(2);
    writer.write_value(&mut t, "O5".to_string());
    assert_eq!(reader.read_value(&t), "O5");
}

#[test]
fn write_leaves_other_entries() {
    let mut t = table();
    let writer: VecIndexReference<String> = VecIndexReference::new(2);
    let other: VecIndexReference<String> = VecIndexReference::new(1);
    writer.write_value(&mut t, "O5".to_string());
    assert_eq!(other.read_value(&t), "A6LUT");
    assert_eq!(t.len(), 3);
}

#[test]
fn writing_back_previous_restores_table() {
    let mut t = table();
    let r: VecIndexReference<String> = VecIndexReference::new(1);
    let previous = r.write_value(&mut t, "B6LUT".to_string());
    r.write_value(&mut t, previous);
    assert_eq!(t, table());
}

#[test]
fn works_on_tables_of_integers() {
    let mut t: Vec<u32> = vec![7, 8, 9];
    let r: VecIndexReference<u32> = VecIndexReference::new(0);
    assert_eq!(r.write_value(&mut t, 70), 7);
    assert_eq!(*r.read_value(&t), 70);
}
