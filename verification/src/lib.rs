pub mod database;
pub mod dryer_machine;
pub mod dryer_manager;
pub mod pzemv1;
pub mod pzemv3;
pub mod telegram;
pub mod text;
pub mod washing_machine;

pub use telegram::MsgType;
pub use telegram::OutgoingMessage;
pub use telegram::UserMessage;
pub use text::seconds_to_hour_format;
