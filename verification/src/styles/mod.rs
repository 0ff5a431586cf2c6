//! Design-document style sheets of the three themes.

pub mod aqua_glass;
pub mod sonic_flux;
pub mod vintage_pro;
