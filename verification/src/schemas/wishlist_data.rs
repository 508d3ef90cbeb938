//! One game of the Steam store's `wishlistdata` answer.

use vstd::prelude::*;

verus! {

#[derive(Debug)]
pub struct WishlistGame {
    pub name: String,
    pub capsule: String,
    pub review_score: usize,
    pub tags: Vec<String>,
    pub subs: Vec<GameSub>,
    /// The store's `type` field ("Game", "DLC", ...).
    pub kind: String,
}

#[derive(Debug)]
pub struct GameSub {
    pub price: usize,
    pub discount_pct: usize,
}

} // verus!
