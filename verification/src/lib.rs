//! A primer of small verified programs: integer sums, text walks, a pool of
//! database connections, and a game of chance played on a revolving drum.

pub mod arith;
pub mod figure;
pub mod game;
pub mod largest;
pub mod numerals;
pub mod ownership;
pub mod pool;
pub mod records;
pub mod scan;
pub mod score;
pub mod text;
pub mod voices;
