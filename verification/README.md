# cdj3k_emu

The logic of a CDJ-3000 emulator: it runs the deck's firmware in QEMU and shows its two
displays in a window. The library decides; the application around it talks to QEMU, to the
guest, to the host and to the operator.

## The library

`src/` is verified with Verus. Each executable function has a contract over spec functions,
and properties that span several functions stand as public proof functions.

| Modules | What they hold |
| --- | --- |
| `config`, `launcher`, `settings` | guest and host configuration, the settings file, and the QEMU command lines |
| `instance`, `qmp` | launching, negotiating with and shutting down QEMU; its machine protocol |
| `runtime`, `control_gate`, `serial_observer` | the worker that follows the operator's requests, and the readiness of a launch |
| `main_stream`, `jog_stream`, `ctrl_stream`, `lcd_texture` | displays and controls |
| `usb`, `vmnet`, `virtual_image` | removable media and shared networking |
| `initramfs`, `patch_plan`, `file_list`, `emmc`, `provision` | installing firmware |
| `menu_state`, `menu`, `menu_entries`, `operator_bar`, `audio_devices_linux` | the operator's state and menus |
| `app`, `firmware_wizard` | the window and the firmware wizard |
| `text` | texts, numbers and paths |

Calls into other crates stand behind small functions marked `#[verifier::external_body]`:
gzip (`flate2`), LZ4 (`lz4_flex`), CRC-32 (`crc`) and JSON (`serde_json`). What each of them
is taken to do is written above it.

## The application

`app/` holds what the library cannot: processes, sockets, shared memory, threads, files and
drawing. Code that asks the library what to do next performs the action that it returns and
hands the outcome back.
