//! A voice-assistant core: a turn-taking state machine that turns recognizer
//! fragments into utterances, a tool-augmented dialogue loop, and a tool
//! dispatcher that expands shell-command templates.
pub mod config;
pub mod dialogue;
pub mod listener;
pub mod text;
pub mod tools;
