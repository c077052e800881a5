pub mod generator;
pub mod stream;

pub use generator::RandomValueGenerator;
pub use stream::RandomNumberStreamImpl;
