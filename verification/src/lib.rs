//! Fixed-arity numeric vectors (2, 3, and 4 components) over a generic
//! numeric element type, with elementwise and geometric operations:
//! construction, addition, subtraction, scalar arithmetic, dot product,
//! cross product (2D scalar form and true 3D form), and plain-text
//! formatting.

pub mod element;
pub mod vec2;
pub mod vec3;
pub mod vec4;
