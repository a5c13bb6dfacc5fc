//! What the set-up of a server needs.

pub use crate::server::{CallError, Handler, ServerBuilder, ServerDetails};
pub use crate::tool_box::{
    CallRequest, RouteError, ToolBox, ToolDescriptor, ToolHints, ToolRegistry, ToolSet,
};
pub use crate::transport::Transport;
