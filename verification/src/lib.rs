pub mod bets;
pub mod settlement;
pub mod table;
pub mod validity;

pub use bets::PlaceBetError;
pub use bets::RouletteBet;
pub use bets::RouletteBetResult;
pub use bets::RouletteBetType;
pub use settlement::RouletteEvaluator;
pub use table::Roulette;
