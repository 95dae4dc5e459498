pub mod navigation;
pub mod reader;
pub mod text;
pub mod types;
pub mod validator;
pub mod wizard;
