//! What the Steam Web API answers, as plain values.

pub mod owned_games;
pub mod steam_user;
pub mod wishlist_data;
