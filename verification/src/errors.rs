pub mod server_error;

pub use server_error::ServerError;
