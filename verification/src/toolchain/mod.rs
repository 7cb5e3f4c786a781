//! The toolchain descriptors: one module per supported ecosystem, each
//! declaring the files, directories and template variables its projects
//! need.

pub mod cargo;
pub mod maven;
pub mod meson;
pub mod poetry;
pub mod setuptools;
pub mod yarn;
