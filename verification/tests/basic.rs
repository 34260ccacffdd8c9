//! The crate-level smoke tests.

#[test]
fn it_works() {
}

#[test]
fn lib_it_works() {
}
