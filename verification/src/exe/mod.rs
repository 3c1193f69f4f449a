pub mod string_map;
pub mod utils;
pub mod vs_header;
pub mod vs_string;
pub mod vs_string_file_info;
pub mod vs_string_table;
pub mod vs_version_info;
