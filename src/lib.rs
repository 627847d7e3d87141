//! Classification and validation of payment card numbers: the issuing
//! network is chosen by format rules, and the number is checked against the
//! network's accepted lengths and the Luhn checksum.
pub mod authenticate;
pub mod digits;
pub mod issuer;
pub mod luhn;

pub use authenticate::Authenticate;
pub use issuer::Type;
