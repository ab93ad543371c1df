//! The scripted run that profiles the program: its command line, its steps, how they are judged and
//! the report on them.
pub mod options;
pub mod scenario;
pub mod report;
pub mod controller;
pub mod laws;
pub mod screen;
