pub mod command;
pub mod msg;
pub mod scan;
pub mod word;

pub use command::parse_command;
pub use command::Command;
pub use msg::Msg;
pub use msg::ReplyMsg;
