//! Parameter core for an audio-processing plugin: range mapping between a
//! plain integer domain and a normalized automation domain, value
//! formatting/parsing, parameter metadata, and the parameter cell that holds
//! a live value and modulation slot and drives change notifications.

pub mod decimal;
pub mod formatter;
pub mod info;
pub mod normalized;
pub mod parameter;
pub mod range;
pub mod text;

pub use formatter::IntFormatter;
pub use info::ParameterInfo;
pub use info::ParameterInfoView;
pub use parameter::ChangeSink;
pub use parameter::Error;
pub use parameter::IntParameter;
pub use parameter::RecordingSink;
pub use parameter::SilentSink;
pub use normalized::Normalized;
pub use normalized::UNIT_SCALE;
pub use range::IntRange;
