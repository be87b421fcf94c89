pub mod cursor_report;
pub mod decimal;
pub mod font_settings;
pub mod input_grammar;
pub mod input_parser;
pub mod string_plus;
pub mod tui_codes;
pub mod tui_enums;
pub mod tui_errors;
pub mod tui_events;
pub mod tui_keys;
pub mod tui_output;
