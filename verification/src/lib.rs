//! Argument and return-value conversions for functions exported to the Wolfram
//! Language through LibraryLink, with their type signatures as Wolfram Language
//! expressions.

pub mod args;
pub mod data;
pub mod expr;
pub mod function_laws;
pub mod laws;
pub mod sys;

pub use args::{
    get_args_list, ExprsToExpr, ExprsToNull, FromArg, IntoArg, NativeFunction, RawArguments,
    ReturnedString, WstpFunction,
};
pub use data::{
    BorrowedImage, BorrowedNumericArray, CString, DataStore, Image, ImageData, ImageType,
    NulError, NumericArray, NumericArrayDataType, NumericArrayType,
};
pub use expr::{Expr, ExprView, Symbol};
pub use sys::{mbool, mint, MArgument};
