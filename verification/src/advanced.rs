pub mod macro_example;
pub mod senior_fn_example;
pub mod senior_trait_example;
pub mod senior_type_example;
