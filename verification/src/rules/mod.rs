pub mod cross_out;
pub mod scoring;
pub mod validation;

pub use cross_out::CrossOutAdvisor;
pub use cross_out::CrossOutRecommendation;
pub use scoring::calculate_score;
pub use validation::is_valid;
