//! Worked examples, each verified: small data types and functions with
//! their contracts, and a pool of worker threads with the protocol by which
//! it hands out its jobs and shuts down.

pub mod advanced;
pub mod closures_example;
pub mod decimal;
pub mod enum_example;
pub mod function_example;
pub mod generics_example;
pub mod implementation_example;
pub mod io_example;
pub mod iterator_example;
pub mod lifetime_example;
pub mod match_example;
pub mod mod_example;
pub mod oop_example;
pub mod oop_example2;
pub mod ownership_example;
pub mod smart_pointers_example;
pub mod structure_example;
pub mod testing_example;
pub mod trait_example;
pub mod variables_example;
pub mod webserver_example;
