/// The types used by the application context's UI elements.
pub mod element;
