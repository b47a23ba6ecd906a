//! Icon extraction and application enumeration for a desktop launcher.
//!
//! The native calls (shell image factory, file-info icon lookup, bitmap
//! read-back, the enumeration process) stay with the host. This library holds
//! the decisions between them and the pure transformations around them.
pub mod apps;
pub mod cache;
pub mod encoding;
pub mod pixels;
pub mod resolve;

pub use encoding::{encode, png_data_url, png_file_data_url, readback_to_data_url};
pub use pixels::{bgra_to_rgba, bitmap_dimensions, finish_readback, readback_len, IconError, PixelBuffer};
pub use resolve::{icon_or_none, is_packaged_target, start, step, Event, Handle, Request, Resolution, Step};
pub use apps::{copy_apps, entries_from_fields, entry_from_fields, launch_target, output_is_blank, parse_app_list, UwpAppInfo};
pub use cache::{choose_output, AppCache, CACHE_TTL_MS};
