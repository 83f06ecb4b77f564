//! Constructive-solid-geometry scenes written out as OpenSCAD text.
//!
//! Every length, angle and factor is a fixed-point number counted in
//! thousandths of a unit, so `1500` stands for `1.5`.
pub mod laws;
pub mod models;
pub mod node;
pub mod num;
pub mod scene;

pub use models::{axle, car, car_body, house, roof, triangular_prism, wheel};
pub use node::{Node, Pt2, SceneError, Vec3};
pub use num::append_milli;
pub use scene::Scene;
