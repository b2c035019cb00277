//! Launch planning for a Minecraft launcher: rule evaluation, version
//! comparison, argument templating, file layout and download decisions.

pub mod arguments;
pub mod digest;
pub mod install;
pub mod manifest;
pub mod numeric;
pub mod os_version;
pub mod paths;
pub mod rules;
pub mod text;
pub mod version;
