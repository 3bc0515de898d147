pub use crate::io::error::new as error;
pub use crate::io::status::Status;
pub use crate::io::success::new as success;
