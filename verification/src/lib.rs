#![allow(non_snake_case)]
#![allow(non_camel_case_types)]

pub mod aux_funcs;
pub mod decimal;
pub mod dictionary;
pub mod dv_winapi;
pub mod generics;
pub mod grep_clone;
pub mod guessing_game;
pub mod hashmaps;
pub mod input;
pub mod learning_fltk;
pub mod lifetimes;
pub mod lines;
pub mod odbc_interface;
pub mod restaurant;
pub mod rounding;
pub mod smart_pointers;
pub mod sql_aux_funcs;
pub mod sqlite3_interface;
pub mod statistics;
pub mod traits;
