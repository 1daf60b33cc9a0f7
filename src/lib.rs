//! Client-side protocol engine for a controller-management channel: the wire
//! framing codec, the event model, the command catalog and the step that
//! matches inbound frames to the outstanding command.
pub mod buffer;
pub mod catalog;
pub mod correlation;
pub mod request;
pub mod response;
pub mod settings;
pub mod text;
pub mod types;

pub use catalog::{Address, ControllerInfo, ManagementVersion};
pub use correlation::{Correlation, PendingCommand};
pub use request::ManagementRequest;
pub use response::{ManagementEvent, ManagementResponse};
pub use settings::{ControllerSettings, Setting};
pub use types::{Controller, ManagementCommand, ManagementCommandStatus, ManagementError};
