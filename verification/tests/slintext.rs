#[test]
fn it_works() {
    let result = 42;
    assert_eq!(result, 42);
}
