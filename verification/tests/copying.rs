use comtrade_rust::copying::copy_of;

#[test]
fn copy_has_the_same_elements() {
    let source = vec![3.5, -1.0, 0.0];
    assert_eq!(copy_of(&source), source);
    assert_eq!(copy_of(&Vec::<u8>::new()), Vec::<u8>::new());
}
