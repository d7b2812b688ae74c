use vstd::prelude::*;

pub mod dispatch;
pub mod driver;
pub mod edge;
pub mod kernel;
pub mod model;
pub mod rgb_program;
pub mod symmetric_rgb_program;
pub mod text;
pub mod val_program;

verus! {

} // verus!
