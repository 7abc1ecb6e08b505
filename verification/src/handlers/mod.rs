pub mod login;
pub mod refresh;
pub mod register;
pub mod users;
