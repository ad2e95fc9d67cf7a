//! Concrete adaptors shipped with the library.

pub mod test_adaptor;
