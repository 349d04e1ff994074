//! Basic types shared by the whole service: database number aliases, the
//! flag sets of methods, data formats and content types, and the errors.

pub mod flags;
pub mod method;
pub mod data_format;
pub mod content_type;
pub mod engine;
pub mod error;

pub use self::flags::{UDbId, IDbNo, UDbFlg, UDbFlgBit};
pub use self::method::Method;
pub use self::data_format::DataFormat;
pub use self::content_type::ContentType;
pub use self::engine::Engine;
pub use self::error::{ServiceError, ServerError};
