//! Image codec, icon selection and dashboard layout for a tri-color
//! e-paper weather display.
pub mod icons;
pub mod image_tri_color;
pub mod layout;
pub mod weather;
