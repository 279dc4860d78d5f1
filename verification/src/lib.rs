//! A small tagged-value evaluation library: typed sum values, validated
//! construction of records, exhaustive dispatch over closed variant sets,
//! and fallible integer arithmetic, all with verified contracts.

pub mod arithmetic;
pub mod evaluator;
pub mod person;
pub mod text;
pub mod validator;
pub mod value;
