//! A declarative configuration model for a YCSB-style key-value benchmark:
//! the workload field set, its canonical defaults, a builder, the six named
//! preset profiles, and a verified canonical text serialization.
pub mod builder;
pub mod laws;
pub mod model;
pub mod numbers;
pub mod parse;
pub mod presets;
pub mod ser;
pub mod text;

pub use builder::WorkloadBuilder;
pub use model::Distribution;
pub use model::HistogramConfig;
pub use model::InsertOrder;
pub use model::MeasurementType;
pub use model::Proportion;
pub use model::TimeseriesConfig;
pub use model::Workload;
pub use parse::ParseError;
