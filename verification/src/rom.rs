//! OTP fuses and their shadow registers.

pub mod registers;
pub mod shadow;
