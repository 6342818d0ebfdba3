pub mod comment;
pub mod date;
pub mod order;
pub mod post;
pub mod principal;
pub mod stars;
pub mod text;
pub mod update;
