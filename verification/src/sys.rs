//! The scalar types of LibraryLink and a model of the argument slots
//! (`MArgument`) through which LibraryLink passes arguments and results.

use crate::data::{CString, DataStore, Image, NumericArray};
use vstd::prelude::*;

verus! {

/// The LibraryLink integer type.
#[allow(non_camel_case_types)]
pub type mint = i64;

/// The LibraryLink boolean type.
#[allow(non_camel_case_types)]
pub type mbool = i32;

/// The `mbool` value of true.
pub const TRUE: u32 = 1;

/// The `mbool` value of false.
pub const FALSE: u32 = 0;

/// The `bool` that an `mbool` stands for: any value other than zero is true.
pub fn bool_from_mbool(boolean: mbool) -> (r: bool)
    ensures
        r == (boolean != 0),
{
    boolean != 0
}

/// A LibraryLink argument or result slot and what it holds.
pub enum MArgument {
    /// A result slot that nothing has been written to yet.
    Empty,
    Boolean(mbool),
    Integer(mint),
    Utf8String(CString),
    NumericArray(NumericArray<()>),
    Image(Image<()>),
    DataStore(DataStore),
}

/// The view of an [`MArgument`]: strings by their bytes, arrays, images and data
/// stores by their handles.
pub enum ArgView {
    Empty,
    Boolean(mbool),
    Integer(mint),
    Utf8String(Seq<u8>),
    NumericArray(usize),
    Image(usize),
    DataStore(usize),
}

impl View for MArgument {
    type V = ArgView;

    open spec fn view(&self) -> ArgView {
        match self {
            MArgument::Empty => ArgView::Empty,
            MArgument::Boolean(b) => ArgView::Boolean(*b),
            MArgument::Integer(i) => ArgView::Integer(*i),
            MArgument::Utf8String(s) => ArgView::Utf8String(s@),
            MArgument::NumericArray(a) => ArgView::NumericArray(a@),
            MArgument::Image(a) => ArgView::Image(a@),
            MArgument::DataStore(d) => ArgView::DataStore(d@),
        }
    }
}

} // verus!
