//! Read-only inspection of a vim-plug plugin manager that runs inside a
//! Neovim session: decoding of the values that the editor hands back, and the
//! decisions taken between the evaluations that a caller performs.
pub mod value;
pub mod vim_plug;
pub mod laws;
