pub mod color;
pub mod decimal;
pub mod fonts;
pub mod layout;
pub mod math;
pub mod mesher;
pub mod slider;
pub mod types;
pub mod widgets;
