//! The frame protocol: envelope, information field, address field, application data.
pub mod app_data;
pub mod user_data;

pub use app_data::{Address, AppData, ADDR_LEN};
pub mod frame;
pub mod info_field;
pub mod laws;
pub use frame::{Frame, FRAME_SIZE};
pub use info_field::InfoField;
pub use user_data::{AddressField, UserData};
