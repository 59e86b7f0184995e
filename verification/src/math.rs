//! Small vector, color and numeric helper types used across the binding
//! layer's public signatures.

pub mod colors;
pub mod matrices;
pub mod ops;
pub mod vectors;

pub use matrices::Mat4;

pub use colors::color;
pub use colors::colorn;
pub use colors::Color;
pub use ops::Clamp2;
pub use ops::Clamp2Abs;
pub use ops::Lerp;
pub use ops::NumCastFrom;
pub use ops::NumCastInto;
pub use ops::RangeMap;
pub use vectors::vec2;
pub use vectors::vec2n;
pub use vectors::vec3;
pub use vectors::vec4;
pub use vectors::Vec2;
pub use vectors::Vec3;
pub use vectors::Vec4;
