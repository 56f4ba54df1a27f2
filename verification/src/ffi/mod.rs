pub mod multienc;
pub mod vfmcap;
