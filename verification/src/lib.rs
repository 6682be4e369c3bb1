//! Small text, number and character utilities, and the decision logic of a
//! Doctor Who trivia chat bot.

pub mod text;
pub mod primes;
pub mod arith;
pub mod chars;
pub mod textops;
mod chance;
pub mod trivia;
pub mod episodes;
