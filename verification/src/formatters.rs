pub mod phone_number;

pub use phone_number::PhoneNumber;
