//! A passphrase dialog for X11: what it shows, how it answers to events and what it asks
//! of the X server. The program around it draws, talks to the server and waits.
pub mod backbuffer;
pub mod config;
pub mod dialog;
pub mod errors;
pub mod event;
pub mod keyboard;
pub mod secret;
pub mod text;
pub mod window;
