pub mod language;
pub mod extended_text;
pub mod smartport;
pub mod mouse;
pub mod superserial;
pub mod diskii;
