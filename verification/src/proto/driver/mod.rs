//! Driver model protocols.

pub mod adapter_info;
pub mod bus_override;
pub mod component_name;
pub mod diagnostics;
pub mod driver_binding;
pub mod driver_family_override;
pub mod driver_health;
pub mod driver_supported_version;
pub mod platform_driver_override;
pub mod platform_to_driver_config;
pub mod service_binding;
