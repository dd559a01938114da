pub mod frame;
pub mod material;
pub mod scene;
pub mod sphere;
pub mod integrator;
