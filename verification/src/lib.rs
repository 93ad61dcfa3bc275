//! A contextual recursive-descent parser for two of the harder
//! productions of an expression grammar: arrow-function definitions and
//! member/call expression chains.
//!
//! Parsing turns a token stream into an abstract syntax tree. Three
//! grammar-context flags — allow-in, allow-yield, allow-await — are
//! threaded through every production to encode which contextual
//! keywords are legal at the current position, and a no-line-terminator
//! restriction guards the `=>` of an arrow function. Every parser
//! carries a contract equating what it returns and consumes with a
//! specification function over the token sequence; the laws module
//! proves grammar-level properties against those specifications.

pub mod arrow_function;
pub mod ast;
pub mod cursor;
pub mod error;
pub mod expression;
pub mod function;
pub mod laws;
pub mod member;
pub mod token;

pub use arrow_function::ArrowFunction;
pub use arrow_function::ConciseBody;
pub use arrow_function::ExpressionBody;
pub use arrow_function::spec_arrow_function;
pub use arrow_function::spec_concise_body;
pub use arrow_function::spec_expression_body;
pub use expression::arguments;
pub use expression::assignment_expression;
pub use expression::primary_expression;
pub use expression::spec_arguments;
pub use expression::spec_argument_list;
pub use expression::spec_assignment_expression;
pub use expression::spec_primary_expression;
pub use expression::spec_scan_close;
pub use expression::spec_starts_arrow;
pub use function::binding_identifier;
pub use function::formal_parameters;
pub use function::function_body;
pub use function::spec_binding_identifier;
pub use function::spec_formal_parameters;
pub use function::spec_formal_params_list;
pub use function::spec_function_body;
pub use member::MemberExpression;
pub use member::spec_member_expression;
pub use member::spec_member_tail;
pub use cursor::Cursor;
pub use cursor::spec_expect;
pub use cursor::spec_peek;
pub use error::Expected;
pub use error::ParseError;
pub use token::Keyword;
pub use token::Punctuator;
pub use token::Token;
pub use token::TokenKind;
pub use token::keyword_chars;
pub use token::keyword_name;
pub use ast::Node;
pub use ast::SpecNode;
pub use ast::FormalParameter;
pub use ast::SpecFormalParameter;
pub use ast::ArrowFunctionDecl;
