//! Health checks for the boot of an image-based system, and the rollback that
//! follows when a boot stays unhealthy.
//!
//! After a boot the required and the wanted health-check scripts run. A
//! healthy boot is recorded in the bootloader's environment and the attempt
//! counter is cleared; an unhealthy one is given an attempt budget and the
//! system is restarted, until the budget is used up and the system is rolled
//! back to its previous deployment.
//!
//! The library decides and does not act. Every operation is a state machine
//! over the vocabulary of [`host`]: `pending` names the one piece of outside
//! work that the operation waits for, `resume` takes what came of it, and
//! `outcome` gives the result once nothing is pending. The caller carries
//! the requests out. Each machine has a mathematical model of its states, and
//! its functions are proved to move as the model does; what is required of
//! the sequence of requests is then proved of the model.

pub mod boot;
pub mod command;
pub mod diagnostics;
pub mod grub;
pub mod handler;
pub mod health;
pub mod host;
pub mod json;
pub mod mount;
pub mod scripts;
pub mod text;

pub use boot::{health_check, trigger_rollback};
pub use command::command_line;
pub use diagnostics::run_diagnostics;
pub use grub::{
    get_boot_counter, get_rollback_trigger, set_boot_counter, set_boot_status,
    set_rollback_trigger, unset_boot_counter, unset_rollback_trigger,
};
pub use handler::{detect_os_deployment, handle_motd, handle_reboot, handle_rollback};
pub use health::{
    check_previous_rollback, generate_motd_message, parse_bash_array_string, GreenbootConfig,
};
pub use host::{Reply, Request};
pub use mount::{is_boot_rw, remount_boot_ro, remount_boot_rw, MountError};
pub use scripts::{run_green, run_red, run_scripts};
