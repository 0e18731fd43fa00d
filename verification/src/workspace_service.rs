pub mod application_prototype_service;
pub mod design_system_service;
