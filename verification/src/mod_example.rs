pub mod back_of_house;
pub mod front_of_house;
