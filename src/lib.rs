//! Layout and decisions of polynomial multiplication by direct convolution
//! and by a recursive three-way Toom-Cook split with a size threshold.

pub mod alg;
pub mod laws;
pub mod layout;

pub use alg::PolynomialMultAlg;
