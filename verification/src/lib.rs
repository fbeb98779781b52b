//! Verified integer core of a handwritten-digit recognizer: the image file
//! layout, the pointer and keyboard state, the drawing grid and the shape of a
//! dense feed-forward network.

pub mod activation;
pub mod cost;
pub mod drawing;
pub mod images;
pub mod input;
pub mod render;
pub mod topology;
pub mod vector;
pub mod viewer;
