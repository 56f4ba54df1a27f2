pub mod aml_venc;
pub mod selection;
