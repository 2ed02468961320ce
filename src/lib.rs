pub mod acpi;
pub mod command;
pub mod monitor;
pub mod notifier;
pub mod text;
