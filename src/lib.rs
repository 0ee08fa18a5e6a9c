//! Newton-Raphson root finding on a cubic, as a verified model of what each
//! frame shows: exact polynomial evaluation, the world-to-screen mapping, the
//! sampled curve, the two root searches, the ordered draw plan, and the
//! convergence of the exact Newton-Raphson iteration on the explored cubic.

pub mod curve;
pub mod frame;
pub mod newton;
pub mod polynomial;
pub mod screen;
pub mod search;
