//! Textgres: the state, the rules and the statements of a PostgreSQL client for the terminal.
//!
//! `app` holds the workspaces and takes keys and database responses. It hands out effects, which a front
//! end carries out. `db` decides what is sent to a server and what its answers mean. `ui` and `highlight`
//! say what is shown. `storage` names and checks what is kept on disk.
pub mod app;
pub mod db;
pub mod editor;
pub mod highlight;
pub mod keyed;
pub mod keys;
pub mod laws;
pub mod selection;
pub mod storage;
pub mod text;
pub mod theme;
pub mod ui;
pub mod value;
