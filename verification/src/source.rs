//! Source text primitives: slices of code with their position, and the offsets between them.

pub mod code;
pub mod span;

pub use code::Code;
pub use code::CodeView;
pub use span::FirstChildTrim;
pub use span::Offset;
pub use span::OffsetView;
pub use span::Span;
pub use span::VisibleOffset;
