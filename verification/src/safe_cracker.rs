//! The password cracker: configuration, candidate generation, and the
//! search driver.

pub mod brute_force_options;
pub mod brute_forcer;
pub mod common_pw_list_options;
pub mod errors;
pub mod options;
pub mod password_crack_result;
pub mod password_reader;
pub mod reader_configuration;
pub mod safe_cracker;
pub mod timing;
