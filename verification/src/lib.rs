mod order;
mod service;

pub use order::Foo;
pub use order::ORDER_ID_HI;
pub use order::ORDER_ID_LO;
pub use service::CannedReply;
pub use service::CannedUserService;
pub use service::MyTrait;
pub use service::User;
pub use service::UserService;
pub use service::call_with_four;
