//! Cargo-style status lines: a `Status` builder that renders a short,
//! optionally colored and bold label, pads it to a fixed column, and writes
//! it with a message to a chosen output stream.

mod color;
mod presets;
mod status;
mod stream;

pub use color::CargoColor;
pub use color::color_str;
pub use color::lemma_render_framing;
pub use color::spec_color_code;
pub use color::spec_color_prefix;
pub use color::spec_render;
pub use color::spec_reset;

pub use presets::carlog_error;
pub use presets::carlog_info;
pub use presets::carlog_ok;
pub use presets::carlog_warning;
pub use presets::lemma_preset_message_separator;
pub use presets::spec_error_output;
pub use presets::spec_info_output;
pub use presets::spec_ok_output;
pub use presets::spec_warning_output;

pub use status::JUSTIFY_WIDTH;
pub use status::Status;
pub use status::lemma_output_depends_on_config;
pub use status::lemma_pad_width;
pub use status::spec_line;
pub use status::spec_pad_width;
pub use status::spec_spaces;

pub use stream::CarlogStream;
pub use stream::IoError;
