//! What each operating system's implementation computes: the layout of the
//! secret files, the commands that drive encrypted volumes and hypervisors,
//! and the enrollment page. Running the commands and touching the disk is
//! left to the programs that use these.
pub mod command_line;
pub mod enrollment_page;
pub mod linux;
pub mod macos;
pub mod secret_files;
pub mod windows;
