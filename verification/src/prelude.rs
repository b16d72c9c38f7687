//! The names that most plugins need, in one place.

pub use crate::auth::{AuthRequest, IntoAuthResult, UserBuilder, UserContext};
pub use crate::db::{DbValue, ToDbValue};
pub use crate::error::{VtxError, VtxResult};
pub use crate::host::{Buffer, Host};
pub use crate::http::{Request, Response, ResponseBuilder};
pub use crate::plugin::{Manifest, VtxPlugin};
pub use crate::stream::BufferExt;
