//! The filter expression model and its rendering to SQL text.

pub mod bridge;
pub mod filter;
pub mod request;
pub mod text;
pub mod tree;
pub mod value;

pub use self::bridge::null_terminated;
pub use self::bridge::Col;
pub use self::bridge::DBConn;
pub use self::bridge::SqlError;
pub use self::bridge::SqlRes;
pub use self::filter::FilterItem;
pub use self::filter::SQLFilterTrait;
pub use self::request::SQLRequest;
pub use self::request::Select;
pub use self::request::Update;
pub use self::tree::FilterStmt;
pub use self::value::sql_render_value;
pub use self::value::Number;
pub use self::value::Value;
