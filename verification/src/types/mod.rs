//! Validated domain types: identifiers, service names, network aliases and
//! container image references.
pub mod id;
pub mod image_ref;
pub mod network_alias;
pub mod service_name;

pub use id::{ContainerId, ContainerMarker, Id, ImageId, ImageMarker, NetworkId, NetworkMarker, PodId, PodMarker};
pub use image_ref::{ImageRef, ImageRefView, ParseImageRefError};
pub use network_alias::{NetworkAlias, NetworkAliasError};
pub use service_name::{ServiceName, ServiceNameError};
