pub mod two_fa;
pub mod password;
pub mod jwt;
pub mod email;
