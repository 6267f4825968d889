//! A record store for movie reviews whose records live at addresses derived
//! from a title and the author's identity, with a fixed token reward minted
//! to the author for every review that is added.

pub mod address;
pub mod error;
pub mod instructions;
pub mod laws;
pub mod ledger;
pub mod reward;
pub mod space;
pub mod state;
pub mod table;

pub use error::MovieReviewError;
pub use instructions::{
    add_movie_review, delete_movie_review, initialize_token_mint, update_movie_review,
    AddMovieReview, DeleteMovieReview, InitializeMint, UpdateMovieReview,
};
pub use state::MovieAccountState;
