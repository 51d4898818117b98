//! Host-side core of the CDJ-3000 emulator.

pub mod app;
pub mod audio_devices_linux;
pub mod config;
pub mod control_gate;
pub mod ctrl_stream;
pub mod emmc;
pub mod file_list;
pub mod firmware_wizard;
pub mod initramfs;
pub mod instance;
pub mod jog_stream;
pub mod launcher;
pub mod lcd_texture;
pub mod main_stream;
pub mod menu;
pub mod menu_entries;
pub mod menu_state;
pub mod operator_bar;
pub mod patch_plan;
pub mod provision;
pub mod qmp;
pub mod runtime;
pub mod runtime_laws;
pub mod serial_observer;
pub mod settings;
pub mod text;
pub mod usb;
pub mod virtual_image;
pub mod vmnet;
