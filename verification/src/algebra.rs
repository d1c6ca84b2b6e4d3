pub mod quotient_group;
pub mod quotient_group_vec;
pub mod symmetric_group;
pub mod rotation;
