//! A terminal text-buffer engine: colour tables, a decoder for a subset of
//! ANSI/VT100 control sequences, and an editable, scrollable grid of text
//! lines with a cursor.
//!
//! Around the engine stand the parts of a small graphical shell that need no
//! window: the line editor of its command line, command lines and file-name
//! patterns, its jobs and built-in commands, the layout of its panes, and
//! the tables and pixel operations of its bitmap fonts and their editor.
//!
//! Every function states in its contract what it returns or changes, over
//! the mathematical models that the modules define.

pub mod ansi;
pub mod args;
pub mod chars;
pub mod color;
pub mod config;
pub mod edit;
pub mod editor;
pub mod execute;
pub mod font;
pub mod glob;
pub mod glyph;
pub mod num;
pub mod params;
pub mod render;
pub mod shell;
pub mod text;
pub mod util;
