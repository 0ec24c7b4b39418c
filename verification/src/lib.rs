//! A one-dimensional paddle-and-ball simulation.
//!
//! A ball travels along a track between two paddles, one centred at each end.
//! Each tick the ball advances by its speed; a swing registered while the ball
//! is inside a paddle's hit zone bounces it back, and a round ends once the
//! ball leaves the track entirely. Positions and speeds are measured in
//! thousandths of the track length, so every rule of the game is exact
//! integer arithmetic.

pub mod display;
pub mod game;
