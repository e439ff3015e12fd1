pub mod outcomes;
pub mod probability;
pub mod probability_order;
pub mod expected_value;
pub mod computer_ai;

pub use computer_ai::AiDecision;
pub use computer_ai::ComputerAi;
pub use expected_value::CategoryChoice;
pub use expected_value::ExpectedValue;
pub use expected_value::HoldDecision;
pub use probability::Probability;
