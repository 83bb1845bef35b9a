//! The description language: what a description says, and how it is read.
pub mod ast;
pub mod parser;
pub mod scan;
pub mod weights;

pub use parser::{from_string, Expected, ParseError};

pub use ast::{
    Ast, AstView, Condition, ConditionType, Environment, EnvironmentView, Letter, Phoneme,
    TransformationRule, TransformationRuleView,
};
