//! Traits for the data types that can be passed to and returned from LibraryLink
//! functions through [`MArgument`] slots, and for the functions themselves.

use crate::data::{
    BorrowedImage, BorrowedNumericArray, CString, DataStore, Image, ImageData, NumericArray,
    NumericArrayType,
};
use crate::expr::{list_elements, view_seq, Expr, ExprView, Symbol};
use crate::sys::{bool_from_mbool, mbool, mint, ArgView, MArgument, FALSE, TRUE};
use vstd::prelude::*;
use vstd::utf8::{decode_utf8, encode_utf8, valid_utf8};

verus! {

broadcast use {crate::expr::lemma_view_seq, vstd::utf8::encode_utf8_decode_utf8};

/// Types that can be read from a LibraryLink argument slot.
pub trait FromArg<'a>: Sized + View {
    /// Whether a value of this type can be read from a slot that holds `arg`.
    spec fn can_read(arg: ArgView) -> bool;

    /// The value read from a slot that holds `arg`.
    spec fn spec_from_arg(arg: ArgView) -> Self::V;

    /// Whether this type can stand as a parameter type of a LibraryLink function.
    spec fn is_parameter_type() -> bool;

    /// The LibraryLink parameter type of this type.
    spec fn spec_parameter_type() -> ExprView;

    /// Whether a value of this type can be read from `arg`.
    fn is_readable(arg: &MArgument) -> (r: bool)
        ensures
            r == Self::can_read(arg@),
    ;

    /// Reads a value of this type from `arg`.
    fn from_arg(arg: &'a MArgument) -> (r: Self)
        requires
            Self::can_read(arg@),
        ensures
            r@ == Self::spec_from_arg(arg@),
    ;

    /// Return the *LibraryLink* parameter type as a Wolfram Language expression.
    fn parameter_type() -> (r: Expr)
        requires
            Self::is_parameter_type(),
        ensures
            r@ == Self::spec_parameter_type(),
    ;
}

/// Types that can be written to the result slot of a LibraryLink function.
pub trait IntoArg: Sized + View {
    /// Whether this value can be written to a result slot.
    spec fn can_return(v: Self::V) -> bool;

    /// What a result slot that held `slot` holds after `v` has been written to it.
    spec fn spec_into_arg(v: Self::V, slot: ArgView) -> ArgView;

    /// The LibraryLink return type of this type.
    spec fn spec_return_type() -> ExprView;

    /// Whether this value can be written to a result slot.
    fn is_returnable(&self) -> (r: bool)
        ensures
            r == Self::can_return(self@),
    ;

    /// Move `self` into `arg`.
    fn into_arg(self, arg: &mut MArgument)
        requires
            Self::can_return(self@),
        ensures
            final(arg)@ == Self::spec_into_arg(self@, old(arg)@),
    ;

    /// Return the *LibraryLink* return type as a Wolfram Language expression.
    fn return_type() -> (r: Expr)
        ensures
            r@ == Self::spec_return_type(),
    ;
}

//======================================
// Expressions for type signatures
//======================================

/// The view of the symbol with the given name.
pub open spec fn symbol_view(name: Seq<char>) -> ExprView {
    ExprView::Symbol(name)
}

/// The view of `head[a, b]` for a symbol `head`.
pub open spec fn normal2_view(head: Seq<char>, a: ExprView, b: ExprView) -> ExprView {
    ExprView::Normal(Box::new(ExprView::Symbol(head)), seq![a, b])
}

/// ``{LibraryDataType[NumericArray, "<type>"], "<mode>"}``, or ``{NumericArray, "<mode>"}``
/// when no element type is given.
pub open spec fn numeric_array_parameter_view(data_type: Option<Seq<char>>, mode: Seq<char>) -> ExprView {
    normal2_view(
        "System`List"@,
        numeric_array_type_view(data_type),
        ExprView::String(mode),
    )
}

/// ``LibraryDataType[NumericArray, "<type>"]``, or ``NumericArray`` when no element
/// type is given.
pub open spec fn numeric_array_type_view(data_type: Option<Seq<char>>) -> ExprView {
    match data_type {
        Some(name) => normal2_view(
            "System`LibraryDataType"@,
            symbol_view("System`NumericArray"@),
            ExprView::String(name),
        ),
        None => symbol_view("System`NumericArray"@),
    }
}

/// ``{LibraryDataType[Image | Image3D, "<type>"], "<mode>"}``, or
/// ``{Image | Image3D, "<mode>"}`` when no pixel type is given.
pub open spec fn image_parameter_view(pixel_type: Option<Seq<char>>, mode: Seq<char>) -> ExprView {
    normal2_view("System`List"@, image_type_view(pixel_type), ExprView::String(mode))
}

/// ``LibraryDataType[Image | Image3D, "<type>"]``, or ``Image | Image3D`` when no
/// pixel type is given.
pub open spec fn image_type_view(pixel_type: Option<Seq<char>>) -> ExprView {
    let images = normal2_view(
        "System`Alternatives"@,
        symbol_view("System`Image"@),
        symbol_view("System`Image3D"@),
    );
    match pixel_type {
        Some(name) => normal2_view("System`LibraryDataType"@, images, ExprView::String(name)),
        None => images,
    }
}

fn symbol_expr(name: &str) -> (r: Expr)
    ensures
        r@ == symbol_view(name@),
{
    Expr::symbol(Symbol::new(name))
}

fn normal2(head: &str, a: Expr, b: Expr) -> (r: Expr)
    ensures
        r@ == normal2_view(head@, a@, b@),
{
    let ghost (va, vb) = (a@, b@);
    let mut contents: Vec<Expr> = Vec::new();
    contents.push(a);
    contents.push(b);
    let r = Expr::normal(symbol_expr(head), contents);
    assert(view_seq(contents@) =~= seq![va, vb]);
    r
}

/// The parameter (or return) type of numeric arrays with the given element type
/// name, passed with the given memory management mode.
fn numeric_array_parameter(data_type: Option<&str>, mode: &str) -> (r: Expr)
    ensures
        r@ == numeric_array_parameter_view(
            match data_type {
                Some(name) => Some(name@),
                None => None,
            },
            mode@,
        ),
{
    normal2("System`List", numeric_array_type(data_type), Expr::string(mode))
}

fn numeric_array_type(data_type: Option<&str>) -> (r: Expr)
    ensures
        r@ == numeric_array_type_view(
            match data_type {
                Some(name) => Some(name@),
                None => None,
            },
        ),
{
    match data_type {
        Some(name) => normal2(
            "System`LibraryDataType",
            symbol_expr("System`NumericArray"),
            Expr::string(name),
        ),
        None => symbol_expr("System`NumericArray"),
    }
}

/// The parameter type of images with the given pixel type name, passed with the
/// given memory management mode.
fn image_parameter(pixel_type: Option<&str>, mode: &str) -> (r: Expr)
    ensures
        r@ == image_parameter_view(
            match pixel_type {
                Some(name) => Some(name@),
                None => None,
            },
            mode@,
        ),
{
    normal2("System`List", image_type(pixel_type), Expr::string(mode))
}

/// The type of images with the given pixel type name.
fn image_type(pixel_type: Option<&str>) -> (r: Expr)
    ensures
        r@ == image_type_view(
            match pixel_type {
                Some(name) => Some(name@),
                None => None,
            },
        ),
{
    let images = normal2(
        "System`Alternatives",
        symbol_expr("System`Image"),
        symbol_expr("System`Image3D"),
    );
    match pixel_type {
        Some(name) => normal2("System`LibraryDataType", images, Expr::string(name)),
        None => images,
    }
}

//======================================
// FromArg Impls
//======================================

impl FromArg<'_> for bool {
    open spec fn can_read(arg: ArgView) -> bool {
        arg is Boolean
    }

    open spec fn spec_from_arg(arg: ArgView) -> bool {
        match arg {
            ArgView::Boolean(b) => b != 0,
            _ => false,
        }
    }

    open spec fn is_parameter_type() -> bool {
        true
    }

    open spec fn spec_parameter_type() -> ExprView {
        ExprView::String("Boolean"@)
    }

    fn is_readable(arg: &MArgument) -> (r: bool) {
        match arg {
            MArgument::Boolean(_) => true,
            _ => false,
        }
    }

    fn from_arg(arg: &MArgument) -> (r: bool) {
        match arg {
            MArgument::Boolean(b) => bool_from_mbool(*b),
            _ => false,
        }
    }

    fn parameter_type() -> (r: Expr) {
        Expr::string("Boolean")
    }
}

impl FromArg<'_> for mint {
    open spec fn can_read(arg: ArgView) -> bool {
        arg is Integer
    }

    open spec fn spec_from_arg(arg: ArgView) -> mint {
        match arg {
            ArgView::Integer(i) => i,
            _ => 0,
        }
    }

    open spec fn is_parameter_type() -> bool {
        true
    }

    open spec fn spec_parameter_type() -> ExprView {
        symbol_view("System`Integer"@)
    }

    fn is_readable(arg: &MArgument) -> (r: bool) {
        match arg {
            MArgument::Integer(_) => true,
            _ => false,
        }
    }

    fn from_arg(arg: &MArgument) -> (r: mint) {
        match arg {
            MArgument::Integer(i) => *i,
            _ => 0,
        }
    }

    fn parameter_type() -> (r: Expr) {
        symbol_expr("System`Integer")
    }
}

//--------------------------------------
// Strings
//--------------------------------------

/// The bytes of the string a UTF8String slot holds.
pub open spec fn utf8_string_bytes(arg: ArgView) -> Seq<u8> {
    match arg {
        ArgView::Utf8String(b) => b,
        _ => Seq::empty(),
    }
}

/// Whether `arg` is a UTF8String slot whose bytes are valid UTF-8.
pub open spec fn holds_utf8_text(arg: ArgView) -> bool {
    arg is Utf8String && valid_utf8(utf8_string_bytes(arg))
}

/// Calls `std::str::from_utf8`: text exactly when the bytes are valid UTF-8, and
/// then text that those bytes encode.
#[verifier::external_body]
fn str_from_utf8(bytes: &[u8]) -> (r: Option<&str>)
    ensures
        r is Some <==> valid_utf8(bytes@),
        r matches Some(s) ==> encode_utf8(s@) == bytes@,
{
    std::str::from_utf8(bytes).ok()
}

/// Whether `arg` is a UTF8String slot whose bytes are valid UTF-8.
fn holds_text(arg: &MArgument) -> (r: bool)
    ensures
        r == holds_utf8_text(arg@),
{
    match arg {
        MArgument::Utf8String(s) => str_from_utf8(s.as_bytes()).is_some(),
        _ => false,
    }
}

/// Whether `bytes` holds a NUL byte.
fn holds_nul(bytes: &[u8]) -> (r: bool)
    ensures
        r == bytes@.contains(0u8),
{
    let n = bytes.len();
    let mut i: usize = 0;
    while i < n
        invariant
            n == bytes@.len(),
            i <= n,
            forall|j: int| 0 <= j < i ==> bytes@[j] != 0u8,
        decreases n - i,
    {
        if bytes[i] == 0 {
            assert(bytes@[i as int] == 0u8);
            return true;
        }
        i = i + 1;
    }
    false
}

/// The text of a UTF8String slot; `""` when the slot holds no valid UTF-8.
fn text_from_arg<'a>(arg: &'a MArgument) -> (r: &'a str)
    ensures
        holds_utf8_text(arg@) ==> r@ == decode_utf8(utf8_string_bytes(arg@)),
{
    match arg {
        MArgument::Utf8String(s) => match str_from_utf8(s.as_bytes()) {
            Some(text) => text,
            None => "",
        },
        _ => "",
    }
}

impl<'a> FromArg<'a> for CString {
    open spec fn can_read(arg: ArgView) -> bool {
        arg is Utf8String
    }

    open spec fn spec_from_arg(arg: ArgView) -> Seq<u8> {
        utf8_string_bytes(arg)
    }

    open spec fn is_parameter_type() -> bool {
        true
    }

    open spec fn spec_parameter_type() -> ExprView {
        symbol_view("System`String"@)
    }

    /// An owned copy of the string in `arg`. (Disowning the Kernel's copy is left to
    /// the caller that holds the raw argument.)
    fn is_readable(arg: &MArgument) -> (r: bool) {
        match arg {
            MArgument::Utf8String(_) => true,
            _ => false,
        }
    }

    fn from_arg(arg: &'a MArgument) -> (r: CString) {
        match arg {
            MArgument::Utf8String(s) => s.copy(),
            _ => CString::empty(),
        }
    }

    fn parameter_type() -> (r: Expr) {
        symbol_expr("System`String")
    }
}

impl<'a> FromArg<'a> for String {
    /// Only valid UTF-8 bytes are text.
    open spec fn can_read(arg: ArgView) -> bool {
        holds_utf8_text(arg)
    }

    open spec fn spec_from_arg(arg: ArgView) -> Seq<char> {
        decode_utf8(utf8_string_bytes(arg))
    }

    open spec fn is_parameter_type() -> bool {
        true
    }

    open spec fn spec_parameter_type() -> ExprView {
        symbol_view("System`String"@)
    }

    fn is_readable(arg: &MArgument) -> (r: bool) {
        holds_text(arg)
    }

    fn from_arg(arg: &'a MArgument) -> (r: String) {
        text_from_arg(arg).to_owned()
    }

    fn parameter_type() -> (r: Expr) {
        symbol_expr("System`String")
    }
}

/// The borrowed string of a slot: `&CString` stands for the borrowed C string.
impl<'a> FromArg<'a> for &'a CString {
    open spec fn can_read(arg: ArgView) -> bool {
        arg is Utf8String
    }

    open spec fn spec_from_arg(arg: ArgView) -> Seq<u8> {
        utf8_string_bytes(arg)
    }

    /// A borrowed string cannot be the parameter type of a LibraryLink function: it
    /// serves to read values, such as those of data store nodes.
    open spec fn is_parameter_type() -> bool {
        false
    }

    open spec fn spec_parameter_type() -> ExprView {
        ExprView::String(Seq::empty())
    }

    fn is_readable(arg: &MArgument) -> (r: bool) {
        match arg {
            MArgument::Utf8String(_) => true,
            _ => false,
        }
    }

    fn from_arg(arg: &'a MArgument) -> (r: &'a CString) {
        match arg {
            MArgument::Utf8String(s) => s,
            _ => unreached(),
        }
    }

    fn parameter_type() -> (r: Expr) {
        unreached()
    }
}

impl<'a> FromArg<'a> for &'a str {
    /// Only valid UTF-8 bytes are text.
    open spec fn can_read(arg: ArgView) -> bool {
        holds_utf8_text(arg)
    }

    open spec fn spec_from_arg(arg: ArgView) -> Seq<char> {
        decode_utf8(utf8_string_bytes(arg))
    }

    /// A borrowed string cannot be the parameter type of a LibraryLink function: it
    /// serves to read values, such as those of data store nodes.
    open spec fn is_parameter_type() -> bool {
        false
    }

    open spec fn spec_parameter_type() -> ExprView {
        ExprView::String(Seq::empty())
    }

    fn is_readable(arg: &MArgument) -> (r: bool) {
        holds_text(arg)
    }

    fn from_arg(arg: &'a MArgument) -> (r: &'a str) {
        text_from_arg(arg)
    }

    fn parameter_type() -> (r: Expr) {
        unreached()
    }
}

//--------------------------------------
// NumericArray
//--------------------------------------

/// The handle of the numeric array that a slot holds.
pub open spec fn numeric_array_handle(arg: ArgView) -> usize {
    match arg {
        ArgView::NumericArray(h) => h,
        _ => 0,
    }
}

impl<'a, T: NumericArrayType> FromArg<'a> for NumericArray<T> {
    open spec fn can_read(arg: ArgView) -> bool {
        arg is NumericArray
    }

    open spec fn spec_from_arg(arg: ArgView) -> usize {
        numeric_array_handle(arg)
    }

    open spec fn is_parameter_type() -> bool {
        true
    }

    open spec fn spec_parameter_type() -> ExprView {
        numeric_array_parameter_view(Some(T::spec_data_type().spec_name()), "Shared"@)
    }

    fn is_readable(arg: &MArgument) -> (r: bool) {
        match arg {
            MArgument::NumericArray(_) => true,
            _ => false,
        }
    }

    fn from_arg(arg: &'a MArgument) -> (r: NumericArray<T>) {
        match arg {
            MArgument::NumericArray(a) => NumericArray::from_raw(a.as_raw()),
            _ => unreached(),
        }
    }

    fn parameter_type() -> (r: Expr) {
        // {LibraryDataType[NumericArray, "<T>"], "Shared"}
        numeric_array_parameter(Some(T::data_type().name()), "Shared")
    }
}

impl<'a, T: NumericArrayType> FromArg<'a> for BorrowedNumericArray<'a, T> {
    open spec fn can_read(arg: ArgView) -> bool {
        arg is NumericArray
    }

    open spec fn spec_from_arg(arg: ArgView) -> usize {
        numeric_array_handle(arg)
    }

    open spec fn is_parameter_type() -> bool {
        true
    }

    open spec fn spec_parameter_type() -> ExprView {
        numeric_array_parameter_view(Some(T::spec_data_type().spec_name()), "Constant"@)
    }

    fn is_readable(arg: &MArgument) -> (r: bool) {
        match arg {
            MArgument::NumericArray(_) => true,
            _ => false,
        }
    }

    fn from_arg(arg: &'a MArgument) -> (r: BorrowedNumericArray<'a, T>) {
        match arg {
            MArgument::NumericArray(a) => BorrowedNumericArray::new(a),
            _ => unreached(),
        }
    }

    fn parameter_type() -> (r: Expr) {
        // {LibraryDataType[NumericArray, "<T>"], "Constant"}
        numeric_array_parameter(Some(T::data_type().name()), "Constant")
    }
}

impl<'a> FromArg<'a> for &'a NumericArray<()> {
    open spec fn can_read(arg: ArgView) -> bool {
        arg is NumericArray
    }

    open spec fn spec_from_arg(arg: ArgView) -> usize {
        numeric_array_handle(arg)
    }

    open spec fn is_parameter_type() -> bool {
        true
    }

    open spec fn spec_parameter_type() -> ExprView {
        numeric_array_parameter_view(None, "Constant"@)
    }

    fn is_readable(arg: &MArgument) -> (r: bool) {
        match arg {
            MArgument::NumericArray(_) => true,
            _ => false,
        }
    }

    fn from_arg(arg: &'a MArgument) -> (r: &'a NumericArray<()>) {
        match arg {
            MArgument::NumericArray(a) => a,
            _ => unreached(),
        }
    }

    fn parameter_type() -> (r: Expr) {
        // {NumericArray, "Constant"}
        numeric_array_parameter(None, "Constant")
    }
}

impl<'a> FromArg<'a> for NumericArray<()> {
    open spec fn can_read(arg: ArgView) -> bool {
        arg is NumericArray
    }

    open spec fn spec_from_arg(arg: ArgView) -> usize {
        numeric_array_handle(arg)
    }

    open spec fn is_parameter_type() -> bool {
        true
    }

    open spec fn spec_parameter_type() -> ExprView {
        numeric_array_parameter_view(None, "Shared"@)
    }

    fn is_readable(arg: &MArgument) -> (r: bool) {
        match arg {
            MArgument::NumericArray(_) => true,
            _ => false,
        }
    }

    fn from_arg(arg: &'a MArgument) -> (r: NumericArray<()>) {
        match arg {
            MArgument::NumericArray(a) => NumericArray::from_raw(a.as_raw()),
            _ => unreached(),
        }
    }

    fn parameter_type() -> (r: Expr) {
        // {NumericArray, "Shared"}
        numeric_array_parameter(None, "Shared")
    }
}

//--------------------------------------
// Image
//--------------------------------------

/// The handle of the image that a slot holds.
pub open spec fn image_handle(arg: ArgView) -> usize {
    match arg {
        ArgView::Image(h) => h,
        _ => 0,
    }
}

impl<'a, T: ImageData> FromArg<'a> for Image<T> {
    open spec fn can_read(arg: ArgView) -> bool {
        arg is Image
    }

    open spec fn spec_from_arg(arg: ArgView) -> usize {
        image_handle(arg)
    }

    open spec fn is_parameter_type() -> bool {
        true
    }

    open spec fn spec_parameter_type() -> ExprView {
        image_parameter_view(Some(T::spec_image_type().spec_name()), "Shared"@)
    }

    fn is_readable(arg: &MArgument) -> (r: bool) {
        match arg {
            MArgument::Image(_) => true,
            _ => false,
        }
    }

    fn from_arg(arg: &'a MArgument) -> (r: Image<T>) {
        match arg {
            MArgument::Image(a) => Image::from_raw(a.as_raw()),
            _ => unreached(),
        }
    }

    fn parameter_type() -> (r: Expr) {
        // {LibraryDataType[Image | Image3D, "<T>"], "Shared"}
        image_parameter(Some(T::image_type().name()), "Shared")
    }
}

impl<'a, T: ImageData> FromArg<'a> for BorrowedImage<'a, T> {
    open spec fn can_read(arg: ArgView) -> bool {
        arg is Image
    }

    open spec fn spec_from_arg(arg: ArgView) -> usize {
        image_handle(arg)
    }

    open spec fn is_parameter_type() -> bool {
        true
    }

    open spec fn spec_parameter_type() -> ExprView {
        image_parameter_view(Some(T::spec_image_type().spec_name()), "Constant"@)
    }

    fn is_readable(arg: &MArgument) -> (r: bool) {
        match arg {
            MArgument::Image(_) => true,
            _ => false,
        }
    }

    fn from_arg(arg: &'a MArgument) -> (r: BorrowedImage<'a, T>) {
        match arg {
            MArgument::Image(a) => BorrowedImage::new(a),
            _ => unreached(),
        }
    }

    fn parameter_type() -> (r: Expr) {
        // {LibraryDataType[Image | Image3D, "<T>"], "Constant"}
        image_parameter(Some(T::image_type().name()), "Constant")
    }
}

impl<'a> FromArg<'a> for &'a Image<()> {
    open spec fn can_read(arg: ArgView) -> bool {
        arg is Image
    }

    open spec fn spec_from_arg(arg: ArgView) -> usize {
        image_handle(arg)
    }

    open spec fn is_parameter_type() -> bool {
        true
    }

    open spec fn spec_parameter_type() -> ExprView {
        image_parameter_view(None, "Constant"@)
    }

    fn is_readable(arg: &MArgument) -> (r: bool) {
        match arg {
            MArgument::Image(_) => true,
            _ => false,
        }
    }

    fn from_arg(arg: &'a MArgument) -> (r: &'a Image<()>) {
        match arg {
            MArgument::Image(a) => a,
            _ => unreached(),
        }
    }

    fn parameter_type() -> (r: Expr) {
        // {Image | Image3D, "Constant"}
        image_parameter(None, "Constant")
    }
}

impl<'a> FromArg<'a> for Image<()> {
    open spec fn can_read(arg: ArgView) -> bool {
        arg is Image
    }

    open spec fn spec_from_arg(arg: ArgView) -> usize {
        image_handle(arg)
    }

    open spec fn is_parameter_type() -> bool {
        true
    }

    open spec fn spec_parameter_type() -> ExprView {
        image_parameter_view(None, "Shared"@)
    }

    fn is_readable(arg: &MArgument) -> (r: bool) {
        match arg {
            MArgument::Image(_) => true,
            _ => false,
        }
    }

    fn from_arg(arg: &'a MArgument) -> (r: Image<()>) {
        match arg {
            MArgument::Image(a) => Image::from_raw(a.as_raw()),
            _ => unreached(),
        }
    }

    fn parameter_type() -> (r: Expr) {
        // {Image | Image3D, "Shared"}
        image_parameter(None, "Shared")
    }
}

//--------------------------------------
// DataStore
//--------------------------------------

/// The handle of the data store that a slot holds.
pub open spec fn data_store_handle(arg: ArgView) -> usize {
    match arg {
        ArgView::DataStore(h) => h,
        _ => 0,
    }
}

impl FromArg<'_> for DataStore {
    open spec fn can_read(arg: ArgView) -> bool {
        arg is DataStore
    }

    open spec fn spec_from_arg(arg: ArgView) -> usize {
        data_store_handle(arg)
    }

    open spec fn is_parameter_type() -> bool {
        true
    }

    open spec fn spec_parameter_type() -> ExprView {
        ExprView::String("DataStore"@)
    }

    fn is_readable(arg: &MArgument) -> (r: bool) {
        match arg {
            MArgument::DataStore(_) => true,
            _ => false,
        }
    }

    fn from_arg(arg: &MArgument) -> (r: DataStore) {
        match arg {
            MArgument::DataStore(d) => DataStore::from_raw(d.as_raw()),
            _ => unreached(),
        }
    }

    fn parameter_type() -> (r: Expr) {
        Expr::string("DataStore")
    }
}

impl<'a> FromArg<'a> for &'a DataStore {
    open spec fn can_read(arg: ArgView) -> bool {
        arg is DataStore
    }

    open spec fn spec_from_arg(arg: ArgView) -> usize {
        data_store_handle(arg)
    }

    /// A borrowed data store cannot be the parameter type of a LibraryLink
    /// function: it serves to read the values of data store nodes.
    open spec fn is_parameter_type() -> bool {
        false
    }

    open spec fn spec_parameter_type() -> ExprView {
        ExprView::String(Seq::empty())
    }

    fn is_readable(arg: &MArgument) -> (r: bool) {
        match arg {
            MArgument::DataStore(_) => true,
            _ => false,
        }
    }

    fn from_arg(arg: &'a MArgument) -> (r: &'a DataStore) {
        match arg {
            MArgument::DataStore(d) => d,
            _ => unreached(),
        }
    }

    fn parameter_type() -> (r: Expr) {
        unreached()
    }
}

//======================================
// impl IntoArg
//======================================

impl IntoArg for () {
    open spec fn can_return(v: ()) -> bool {
        true
    }

    open spec fn spec_into_arg(v: (), slot: ArgView) -> ArgView {
        slot
    }

    open spec fn spec_return_type() -> ExprView {
        ExprView::String("Void"@)
    }

    fn is_returnable(&self) -> (r: bool) {
        true
    }

    fn into_arg(self, arg: &mut MArgument) {
        // Do nothing.
    }

    fn return_type() -> (r: Expr) {
        Expr::string("Void")
    }
}

//---------------------
// Primitive data types
//---------------------

impl IntoArg for bool {
    open spec fn can_return(v: bool) -> bool {
        true
    }

    open spec fn spec_into_arg(v: bool, slot: ArgView) -> ArgView {
        ArgView::Boolean(if v { 1 } else { 0 })
    }

    open spec fn spec_return_type() -> ExprView {
        ExprView::String("Boolean"@)
    }

    fn is_returnable(&self) -> (r: bool) {
        true
    }

    fn into_arg(self, arg: &mut MArgument) {
        let boole: u32 = if self { TRUE } else { FALSE };
        *arg = MArgument::Boolean(boole as mbool);
    }

    fn return_type() -> (r: Expr) {
        Expr::string("Boolean")
    }
}

impl IntoArg for mint {
    open spec fn can_return(v: mint) -> bool {
        true
    }

    open spec fn spec_into_arg(v: mint, slot: ArgView) -> ArgView {
        ArgView::Integer(v)
    }

    open spec fn spec_return_type() -> ExprView {
        symbol_view("System`Integer"@)
    }

    fn is_returnable(&self) -> (r: bool) {
        true
    }

    fn into_arg(self, arg: &mut MArgument) {
        *arg = MArgument::Integer(self);
    }

    fn return_type() -> (r: Expr) {
        symbol_expr("System`Integer")
    }
}

//--------------------------------------------------
// Convenience conversions for narrow integer sizes.
//--------------------------------------------------

impl IntoArg for i8 {
    open spec fn can_return(v: i8) -> bool {
        true
    }

    open spec fn spec_into_arg(v: i8, slot: ArgView) -> ArgView {
        ArgView::Integer(v as mint)
    }

    open spec fn spec_return_type() -> ExprView {
        symbol_view("System`Integer"@)
    }

    fn is_returnable(&self) -> (r: bool) {
        true
    }

    fn into_arg(self, arg: &mut MArgument) {
        *arg = MArgument::Integer(mint::from(self));
    }

    fn return_type() -> (r: Expr) {
        symbol_expr("System`Integer")
    }
}

impl IntoArg for i16 {
    open spec fn can_return(v: i16) -> bool {
        true
    }

    open spec fn spec_into_arg(v: i16, slot: ArgView) -> ArgView {
        ArgView::Integer(v as mint)
    }

    open spec fn spec_return_type() -> ExprView {
        symbol_view("System`Integer"@)
    }

    fn is_returnable(&self) -> (r: bool) {
        true
    }

    fn into_arg(self, arg: &mut MArgument) {
        *arg = MArgument::Integer(mint::from(self));
    }

    fn return_type() -> (r: Expr) {
        symbol_expr("System`Integer")
    }
}

impl IntoArg for i32 {
    open spec fn can_return(v: i32) -> bool {
        true
    }

    open spec fn spec_into_arg(v: i32, slot: ArgView) -> ArgView {
        ArgView::Integer(v as mint)
    }

    open spec fn spec_return_type() -> ExprView {
        symbol_view("System`Integer"@)
    }

    fn is_returnable(&self) -> (r: bool) {
        true
    }

    fn into_arg(self, arg: &mut MArgument) {
        *arg = MArgument::Integer(mint::from(self));
    }

    fn return_type() -> (r: Expr) {
        symbol_expr("System`Integer")
    }
}

impl IntoArg for u8 {
    open spec fn can_return(v: u8) -> bool {
        true
    }

    open spec fn spec_into_arg(v: u8, slot: ArgView) -> ArgView {
        ArgView::Integer(v as mint)
    }

    open spec fn spec_return_type() -> ExprView {
        symbol_view("System`Integer"@)
    }

    fn is_returnable(&self) -> (r: bool) {
        true
    }

    fn into_arg(self, arg: &mut MArgument) {
        *arg = MArgument::Integer(self as mint);
    }

    fn return_type() -> (r: Expr) {
        symbol_expr("System`Integer")
    }
}

impl IntoArg for u16 {
    open spec fn can_return(v: u16) -> bool {
        true
    }

    open spec fn spec_into_arg(v: u16, slot: ArgView) -> ArgView {
        ArgView::Integer(v as mint)
    }

    open spec fn spec_return_type() -> ExprView {
        symbol_view("System`Integer"@)
    }

    fn is_returnable(&self) -> (r: bool) {
        true
    }

    fn into_arg(self, arg: &mut MArgument) {
        *arg = MArgument::Integer(self as mint);
    }

    fn return_type() -> (r: Expr) {
        symbol_expr("System`Integer")
    }
}

impl IntoArg for u32 {
    open spec fn can_return(v: u32) -> bool {
        true
    }

    open spec fn spec_into_arg(v: u32, slot: ArgView) -> ArgView {
        ArgView::Integer(v as mint)
    }

    open spec fn spec_return_type() -> ExprView {
        symbol_view("System`Integer"@)
    }

    fn is_returnable(&self) -> (r: bool) {
        true
    }

    fn into_arg(self, arg: &mut MArgument) {
        *arg = MArgument::Integer(self as mint);
    }

    fn return_type() -> (r: Expr) {
        symbol_expr("System`Integer")
    }
}

//--------------------
// Strings
//--------------------

/// Keeps the most recently returned string alive after the function that returned
/// it has ended, so that the Kernel can copy it; it drops the one before.
pub struct ReturnedString<S> {
    stored: Option<S>,
}

impl<S> ReturnedString<S> {
    /// The string now kept, if any.
    pub closed spec fn spec_stored(&self) -> Option<S> {
        self.stored
    }

    /// A keeper that holds nothing.
    pub fn new() -> (r: ReturnedString<S>)
        ensures
            r.spec_stored() is None,
    {
        ReturnedString { stored: None }
    }

    /// Keeps `s`, in place of the string kept before, which is handed back for the
    /// caller to drop: at most one returned string is kept at any time.
    pub fn keep(&mut self, s: S) -> (previous: Option<S>)
        ensures
            final(self).spec_stored() == Some(s),
            previous == old(self).spec_stored(),
    {
        let previous = self.stored.take();
        self.stored = Some(s);
        previous
    }

    /// The string now kept, if any.
    pub fn stored(&self) -> (r: Option<&S>)
        ensures
            r == match self.spec_stored() {
                Some(s) => Some(&s),
                None => None::<&S>,
            },
    {
        match &self.stored {
            Some(s) => Some(s),
            None => None,
        }
    }
}

impl IntoArg for CString {
    open spec fn can_return(v: Seq<u8>) -> bool {
        true
    }

    open spec fn spec_into_arg(v: Seq<u8>, slot: ArgView) -> ArgView {
        ArgView::Utf8String(v)
    }

    open spec fn spec_return_type() -> ExprView {
        symbol_view("System`String"@)
    }

    fn is_returnable(&self) -> (r: bool) {
        true
    }

    /// Moves the string into the result slot; the caller that holds the raw slot
    /// keeps it alive with a [`ReturnedString`].
    fn into_arg(self, arg: &mut MArgument) {
        *arg = MArgument::Utf8String(self);
    }

    fn return_type() -> (r: Expr) {
        symbol_expr("System`String")
    }
}

impl IntoArg for String {
    /// A string whose bytes hold a NUL cannot be returned as a C string.
    open spec fn can_return(v: Seq<char>) -> bool {
        !encode_utf8(v).contains(0u8)
    }

    open spec fn spec_into_arg(v: Seq<char>, slot: ArgView) -> ArgView {
        ArgView::Utf8String(encode_utf8(v))
    }

    open spec fn spec_return_type() -> ExprView {
        symbol_view("System`String"@)
    }

    fn is_returnable(&self) -> (r: bool) {
        !holds_nul(self.as_str().as_bytes())
    }

    fn into_arg(self, arg: &mut MArgument) {
        let bytes = vstd::slice::slice_to_vec(self.as_str().as_bytes());
        match CString::new(bytes) {
            Ok(cstring) => cstring.into_arg(arg),
            Err(_) => unreached(),
        }
    }

    fn return_type() -> (r: Expr) {
        symbol_expr("System`String")
    }
}

//---------------------------------------
// NumericArray, Image, DataStore
//---------------------------------------

impl<T: NumericArrayType> IntoArg for NumericArray<T> {
    open spec fn can_return(v: usize) -> bool {
        true
    }

    open spec fn spec_into_arg(v: usize, slot: ArgView) -> ArgView {
        ArgView::NumericArray(v)
    }

    open spec fn spec_return_type() -> ExprView {
        numeric_array_type_view(Some(T::spec_data_type().spec_name()))
    }

    fn is_returnable(&self) -> (r: bool) {
        true
    }

    fn into_arg(self, arg: &mut MArgument) {
        *arg = MArgument::NumericArray(NumericArray::from_raw(self.into_raw()));
    }

    fn return_type() -> (r: Expr) {
        // LibraryDataType[NumericArray, "<T>"]
        numeric_array_type(Some(T::data_type().name()))
    }
}

impl IntoArg for NumericArray<()> {
    open spec fn can_return(v: usize) -> bool {
        true
    }

    open spec fn spec_into_arg(v: usize, slot: ArgView) -> ArgView {
        ArgView::NumericArray(v)
    }

    open spec fn spec_return_type() -> ExprView {
        numeric_array_type_view(None)
    }

    fn is_returnable(&self) -> (r: bool) {
        true
    }

    fn into_arg(self, arg: &mut MArgument) {
        *arg = MArgument::NumericArray(self);
    }

    fn return_type() -> (r: Expr) {
        // NumericArray
        numeric_array_type(None)
    }
}

impl<T: ImageData> IntoArg for Image<T> {
    open spec fn can_return(v: usize) -> bool {
        true
    }

    open spec fn spec_into_arg(v: usize, slot: ArgView) -> ArgView {
        ArgView::Image(v)
    }

    /// ``LibraryDataType[Image | Image3D, "<T>"]``: the image type itself, as for
    /// numeric arrays, without a memory management mode.
    open spec fn spec_return_type() -> ExprView {
        image_type_view(Some(T::spec_image_type().spec_name()))
    }

    fn is_returnable(&self) -> (r: bool) {
        true
    }

    fn into_arg(self, arg: &mut MArgument) {
        *arg = MArgument::Image(Image::from_raw(self.into_raw()));
    }

    fn return_type() -> (r: Expr) {
        // LibraryDataType[Image | Image3D, "<T>"]
        image_type(Some(T::image_type().name()))
    }
}

impl IntoArg for DataStore {
    open spec fn can_return(v: usize) -> bool {
        true
    }

    open spec fn spec_into_arg(v: usize, slot: ArgView) -> ArgView {
        ArgView::DataStore(v)
    }

    open spec fn spec_return_type() -> ExprView {
        ExprView::String("DataStore"@)
    }

    fn is_returnable(&self) -> (r: bool) {
        true
    }

    fn into_arg(self, arg: &mut MArgument) {
        *arg = MArgument::DataStore(self);
    }

    fn return_type() -> (r: Expr) {
        Expr::string("DataStore")
    }
}

//======================================
// NativeFunction
//======================================

/// The views of the result of [`NativeFunction::signature`].
pub open spec fn signature_view(r: Result<(Vec<Expr>, Expr), String>) -> Result<
    (Seq<ExprView>, ExprView),
    Seq<char>,
> {
    match r {
        Ok((params, ret)) => Ok((view_seq(params@), ret@)),
        Err(message) => Err(message@),
    }
}

/// Trait implemented for any function whose parameters and return type are native
/// LibraryLink [`MArgument`] types.
///
/// A function implements this trait if all of its parameters implement [`FromArg`] and
/// its return type implements [`IntoArg`]; `Params` is then the tuple of its
/// parameter types. A function that takes the raw argument slots and the result slot
/// implements it with `Params` = [`RawArguments`].
pub trait NativeFunction<'a, Params> {
    /// Whether the function takes `n` arguments.
    spec fn spec_takes(&self, n: nat) -> bool;

    /// Whether the function can be called on the argument slots `args`: each holds
    /// what its parameter can be read from, and the function can be called on any
    /// parameter values and returns a value that can be written to a result slot.
    spec fn can_call(&self, args: &'a [MArgument]) -> bool;

    /// Whether calling the function on `args` can leave the result slot, which held
    /// `before`, holding `after`.
    spec fn spec_call(&self, args: &'a [MArgument], before: ArgView, after: ArgView) -> bool;

    /// Whether there is one argument slot per parameter and each holds what its
    /// parameter can be read from.
    spec fn spec_reads(&self, args: &'a [MArgument]) -> bool;

    /// Whether every parameter type can be named.
    spec fn has_signature(&self) -> bool;

    /// The parameter types and the return type, or why they are unknown.
    spec fn spec_signature(&self) -> Result<(Seq<ExprView>, ExprView), Seq<char>>;

    /// Whether the function takes `n` arguments; it cannot be called with another
    /// number of arguments.
    fn takes(&self, n: usize) -> (r: bool)
        ensures
            r == self.spec_takes(n as nat),
    ;

    /// Whether there is one argument slot per parameter and each holds what its
    /// parameter can be read from.
    fn reads(&self, args: &'a [MArgument]) -> (r: bool)
        ensures
            r == self.spec_reads(args),
    ;

    /// Call the function using the LibraryLink argument slots and result slot.
    fn call(&self, args: &'a [MArgument], ret: &mut MArgument)
        requires
            self.spec_takes(args@.len()),
            self.can_call(args),
        ensures
            self.spec_call(args, old(ret)@, final(ret)@),
    ;

    /// Get the type signature of this function, suitable for use in
    /// `LibraryFunctionLoad[_, _, parameters, ret]`.
    fn signature(&self) -> (r: Result<(Vec<Expr>, Expr), String>)
        requires
            self.has_signature(),
        ensures
            signature_view(r) == self.spec_signature(),
    ;
}

/// The `Params` of functions that take the raw argument slots and the result slot.
pub struct RawArguments;

/// Implement `NativeFunction` for functions that use raw [`MArgument`]s for their
/// arguments and return value: such a function takes the argument slots and what the
/// result slot holds, and returns what the result slot is to hold.
impl<'a, F: Fn(&'a [MArgument], MArgument) -> MArgument> NativeFunction<'a, RawArguments> for F {
    open spec fn spec_takes(&self, n: nat) -> bool {
        true
    }

    /// The function reads its argument slots itself.
    open spec fn spec_reads(&self, args: &'a [MArgument]) -> bool {
        true
    }

    open spec fn can_call(&self, args: &'a [MArgument]) -> bool {
        forall|ret: MArgument| #[trigger] call_requires(*self, (args, ret))
    }

    /// The function, called on `args` and a result slot that held `before`, can return
    /// what the slot then holds, `after`.
    open spec fn spec_call(&self, args: &'a [MArgument], before: ArgView, after: ArgView) -> bool {
        exists|prior: MArgument, written: MArgument|
            {
                &&& prior@ == before
                &&& written@ == after
                &&& #[trigger] call_ensures(*self, (args, prior), written)
            }
    }

    open spec fn has_signature(&self) -> bool {
        true
    }

    open spec fn spec_signature(&self) -> Result<(Seq<ExprView>, ExprView), Seq<char>> {
        Err(
            "fn(&[MArgument], MArgument) function cannot be loaded automatically: parameter and return types are unknown."@,
        )
    }

    fn takes(&self, n: usize) -> (r: bool) {
        true
    }

    fn reads(&self, args: &'a [MArgument]) -> (r: bool) {
        true
    }

    fn call(&self, args: &'a [MArgument], ret: &mut MArgument) {
        let mut prior = MArgument::Empty;
        core::mem::swap(&mut prior, ret);
        let ghost given = prior;
        let written = (self)(args, prior);
        let ghost returned = written;
        *ret = written;
        assert(call_ensures(*self, (args, given), returned));
    }

    fn signature(&self) -> (r: Result<(Vec<Expr>, Expr), String>) {
        Err(
            String::from_str(
                "fn(&[MArgument], MArgument) function cannot be loaded automatically: parameter and return types are unknown.",
            ),
        )
    }
}

// Handle the zero-arguments case specially.
impl<'a, R: IntoArg, F: Fn() -> R> NativeFunction<'a, ()> for F {
    open spec fn spec_takes(&self, n: nat) -> bool {
        n == 0
    }

    open spec fn spec_reads(&self, args: &'a [MArgument]) -> bool {
        &&& args@.len() == 0
    }

    open spec fn can_call(&self, args: &'a [MArgument]) -> bool {
        &&& args@.len() == 0
        &&& call_requires(*self, ())
        &&& forall|r: R| #[trigger] call_ensures(*self, (), r) ==> R::can_return(r@)
    }

    open spec fn spec_call(&self, args: &'a [MArgument], before: ArgView, after: ArgView) -> bool {
        exists|r: R|
            {
                &&& #[trigger] call_ensures(*self, (), r)
                &&& after == R::spec_into_arg(r@, before)
            }
    }

    open spec fn has_signature(&self) -> bool {
        true
    }

    open spec fn spec_signature(&self) -> Result<(Seq<ExprView>, ExprView), Seq<char>> {
        Ok((Seq::empty(), R::spec_return_type()))
    }

    fn takes(&self, n: usize) -> (r: bool) {
        n == 0
    }

    fn reads(&self, args: &'a [MArgument]) -> (r: bool) {
        args.len() == 0
    }

    fn call(&self, args: &'a [MArgument], ret: &mut MArgument) {
        let result: R = (self)();
        let ghost returned = result;
        result.into_arg(ret);
        assert(call_ensures(*self, (), returned));
    }

    fn signature(&self) -> (r: Result<(Vec<Expr>, Expr), String>) {
        let param_tys: Vec<Expr> = Vec::new();
        assert(view_seq(param_tys@) =~= Seq::<ExprView>::empty());
        Ok((param_tys, R::return_type()))
    }
}

impl<'a, A1: FromArg<'a>, R: IntoArg, F: Fn(A1) -> R> NativeFunction<'a, (A1,)> for F {
    open spec fn spec_takes(&self, n: nat) -> bool {
        n == 1
    }

    open spec fn spec_reads(&self, args: &'a [MArgument]) -> bool {
        &&& args@.len() == 1
        &&& A1::can_read(args@[0]@)
    }

    open spec fn can_call(&self, args: &'a [MArgument]) -> bool {
        &&& args@.len() == 1
        &&& A1::can_read(args@[0]@)
        &&& forall|a1: A1| #[trigger] call_requires(*self, (a1,))
        &&& forall|a1: A1, r: R|
            #[trigger] call_ensures(*self, (a1,), r) ==> R::can_return(r@)
    }

    open spec fn spec_call(&self, args: &'a [MArgument], before: ArgView, after: ArgView) -> bool {
        exists|a1: A1, r: R|
            {
                &&& a1@ == A1::spec_from_arg(args@[0]@)
                &&& #[trigger] call_ensures(*self, (a1,), r)
                &&& after == R::spec_into_arg(r@, before)
            }
    }

    open spec fn has_signature(&self) -> bool {
        A1::is_parameter_type()
    }

    open spec fn spec_signature(&self) -> Result<(Seq<ExprView>, ExprView), Seq<char>> {
        Ok((seq![A1::spec_parameter_type()], R::spec_return_type()))
    }

    fn takes(&self, n: usize) -> (r: bool) {
        n == 1
    }

    fn reads(&self, args: &'a [MArgument]) -> (r: bool) {
        args.len() == 1 && A1::is_readable(&args[0])
    }

    fn call(&self, args: &'a [MArgument], ret: &mut MArgument) {
        let a1: A1 = A1::from_arg(&args[0]);
        let ghost arguments = (a1,);
        let result: R = (self)(a1);
        let ghost returned = result;
        result.into_arg(ret);
        assert(call_ensures(*self, arguments, returned));
    }

    fn signature(&self) -> (r: Result<(Vec<Expr>, Expr), String>) {
        let mut param_tys = Vec::new();
        param_tys.push(A1::parameter_type());
        assert(view_seq(param_tys@) =~= seq![A1::spec_parameter_type()]);
        Ok((param_tys, R::return_type()))
    }
}

impl<'a, A1: FromArg<'a>, A2: FromArg<'a>, R: IntoArg, F: Fn(A1, A2) -> R> NativeFunction<'a, (A1, A2)> for F {
    open spec fn spec_takes(&self, n: nat) -> bool {
        n == 2
    }

    open spec fn spec_reads(&self, args: &'a [MArgument]) -> bool {
        &&& args@.len() == 2
        &&& A1::can_read(args@[0]@)
        &&& A2::can_read(args@[1]@)
    }

    open spec fn can_call(&self, args: &'a [MArgument]) -> bool {
        &&& args@.len() == 2
        &&& A1::can_read(args@[0]@)
        &&& A2::can_read(args@[1]@)
        &&& forall|a1: A1, a2: A2| #[trigger] call_requires(*self, (a1, a2))
        &&& forall|a1: A1, a2: A2, r: R|
            #[trigger] call_ensures(*self, (a1, a2), r) ==> R::can_return(r@)
    }

    open spec fn spec_call(&self, args: &'a [MArgument], before: ArgView, after: ArgView) -> bool {
        exists|a1: A1, a2: A2, r: R|
            {
                &&& a1@ == A1::spec_from_arg(args@[0]@)
                &&& a2@ == A2::spec_from_arg(args@[1]@)
                &&& #[trigger] call_ensures(*self, (a1, a2), r)
                &&& after == R::spec_into_arg(r@, before)
            }
    }

    open spec fn has_signature(&self) -> bool {
        A1::is_parameter_type() && A2::is_parameter_type()
    }

    open spec fn spec_signature(&self) -> Result<(Seq<ExprView>, ExprView), Seq<char>> {
        Ok((seq![A1::spec_parameter_type(), A2::spec_parameter_type()], R::spec_return_type()))
    }

    fn takes(&self, n: usize) -> (r: bool) {
        n == 2
    }

    fn reads(&self, args: &'a [MArgument]) -> (r: bool) {
        args.len() == 2 && A1::is_readable(&args[0]) && A2::is_readable(&args[1])
    }

    fn call(&self, args: &'a [MArgument], ret: &mut MArgument) {
        let a1: A1 = A1::from_arg(&args[0]);
        let a2: A2 = A2::from_arg(&args[1]);
        let ghost arguments = (a1, a2);
        let result: R = (self)(a1, a2);
        let ghost returned = result;
        result.into_arg(ret);
        assert(call_ensures(*self, arguments, returned));
    }

    fn signature(&self) -> (r: Result<(Vec<Expr>, Expr), String>) {
        let mut param_tys = Vec::new();
        param_tys.push(A1::parameter_type());
        param_tys.push(A2::parameter_type());
        assert(view_seq(param_tys@) =~= seq![A1::spec_parameter_type(), A2::spec_parameter_type()]);
        Ok((param_tys, R::return_type()))
    }
}

impl<'a, A1: FromArg<'a>, A2: FromArg<'a>, A3: FromArg<'a>, R: IntoArg, F: Fn(A1, A2, A3) -> R> NativeFunction<'a, (A1, A2, A3)> for F {
    open spec fn spec_takes(&self, n: nat) -> bool {
        n == 3
    }

    open spec fn spec_reads(&self, args: &'a [MArgument]) -> bool {
        &&& args@.len() == 3
        &&& A1::can_read(args@[0]@)
        &&& A2::can_read(args@[1]@)
        &&& A3::can_read(args@[2]@)
    }

    open spec fn can_call(&self, args: &'a [MArgument]) -> bool {
        &&& args@.len() == 3
        &&& A1::can_read(args@[0]@)
        &&& A2::can_read(args@[1]@)
        &&& A3::can_read(args@[2]@)
        &&& forall|a1: A1, a2: A2, a3: A3| #[trigger] call_requires(*self, (a1, a2, a3))
        &&& forall|a1: A1, a2: A2, a3: A3, r: R|
            #[trigger] call_ensures(*self, (a1, a2, a3), r) ==> R::can_return(r@)
    }

    open spec fn spec_call(&self, args: &'a [MArgument], before: ArgView, after: ArgView) -> bool {
        exists|a1: A1, a2: A2, a3: A3, r: R|
            {
                &&& a1@ == A1::spec_from_arg(args@[0]@)
                &&& a2@ == A2::spec_from_arg(args@[1]@)
                &&& a3@ == A3::spec_from_arg(args@[2]@)
                &&& #[trigger] call_ensures(*self, (a1, a2, a3), r)
                &&& after == R::spec_into_arg(r@, before)
            }
    }

    open spec fn has_signature(&self) -> bool {
        A1::is_parameter_type() && A2::is_parameter_type() && A3::is_parameter_type()
    }

    open spec fn spec_signature(&self) -> Result<(Seq<ExprView>, ExprView), Seq<char>> {
        Ok((seq![A1::spec_parameter_type(), A2::spec_parameter_type(), A3::spec_parameter_type()], R::spec_return_type()))
    }

    fn takes(&self, n: usize) -> (r: bool) {
        n == 3
    }

    fn reads(&self, args: &'a [MArgument]) -> (r: bool) {
        args.len() == 3
            && A1::is_readable(&args[0])
            && A2::is_readable(&args[1])
            && A3::is_readable(&args[2])
    }

    fn call(&self, args: &'a [MArgument], ret: &mut MArgument) {
        let a1: A1 = A1::from_arg(&args[0]);
        let a2: A2 = A2::from_arg(&args[1]);
        let a3: A3 = A3::from_arg(&args[2]);
        let ghost arguments = (a1, a2, a3);
        let result: R = (self)(a1, a2, a3);
        let ghost returned = result;
        result.into_arg(ret);
        assert(call_ensures(*self, arguments, returned));
    }

    fn signature(&self) -> (r: Result<(Vec<Expr>, Expr), String>) {
        let mut param_tys = Vec::new();
        param_tys.push(A1::parameter_type());
        param_tys.push(A2::parameter_type());
        param_tys.push(A3::parameter_type());
        assert(view_seq(param_tys@) =~= seq![A1::spec_parameter_type(), A2::spec_parameter_type(), A3::spec_parameter_type()]);
        Ok((param_tys, R::return_type()))
    }
}

impl<'a, A1: FromArg<'a>, A2: FromArg<'a>, A3: FromArg<'a>, A4: FromArg<'a>, R: IntoArg, F: Fn(A1, A2, A3, A4) -> R> NativeFunction<'a, (A1, A2, A3, A4)> for F {
    open spec fn spec_takes(&self, n: nat) -> bool {
        n == 4
    }

    open spec fn spec_reads(&self, args: &'a [MArgument]) -> bool {
        &&& args@.len() == 4
        &&& A1::can_read(args@[0]@)
        &&& A2::can_read(args@[1]@)
        &&& A3::can_read(args@[2]@)
        &&& A4::can_read(args@[3]@)
    }

    open spec fn can_call(&self, args: &'a [MArgument]) -> bool {
        &&& args@.len() == 4
        &&& A1::can_read(args@[0]@)
        &&& A2::can_read(args@[1]@)
        &&& A3::can_read(args@[2]@)
        &&& A4::can_read(args@[3]@)
        &&& forall|a1: A1, a2: A2, a3: A3, a4: A4| #[trigger] call_requires(*self, (a1, a2, a3, a4))
        &&& forall|a1: A1, a2: A2, a3: A3, a4: A4, r: R|
            #[trigger] call_ensures(*self, (a1, a2, a3, a4), r) ==> R::can_return(r@)
    }

    open spec fn spec_call(&self, args: &'a [MArgument], before: ArgView, after: ArgView) -> bool {
        exists|a1: A1, a2: A2, a3: A3, a4: A4, r: R|
            {
                &&& a1@ == A1::spec_from_arg(args@[0]@)
                &&& a2@ == A2::spec_from_arg(args@[1]@)
                &&& a3@ == A3::spec_from_arg(args@[2]@)
                &&& a4@ == A4::spec_from_arg(args@[3]@)
                &&& #[trigger] call_ensures(*self, (a1, a2, a3, a4), r)
                &&& after == R::spec_into_arg(r@, before)
            }
    }

    open spec fn has_signature(&self) -> bool {
        A1::is_parameter_type() && A2::is_parameter_type() && A3::is_parameter_type() && A4::is_parameter_type()
    }

    open spec fn spec_signature(&self) -> Result<(Seq<ExprView>, ExprView), Seq<char>> {
        Ok((seq![A1::spec_parameter_type(), A2::spec_parameter_type(), A3::spec_parameter_type(), A4::spec_parameter_type()], R::spec_return_type()))
    }

    fn takes(&self, n: usize) -> (r: bool) {
        n == 4
    }

    fn reads(&self, args: &'a [MArgument]) -> (r: bool) {
        args.len() == 4
            && A1::is_readable(&args[0])
            && A2::is_readable(&args[1])
            && A3::is_readable(&args[2])
            && A4::is_readable(&args[3])
    }

    fn call(&self, args: &'a [MArgument], ret: &mut MArgument) {
        let a1: A1 = A1::from_arg(&args[0]);
        let a2: A2 = A2::from_arg(&args[1]);
        let a3: A3 = A3::from_arg(&args[2]);
        let a4: A4 = A4::from_arg(&args[3]);
        let ghost arguments = (a1, a2, a3, a4);
        let result: R = (self)(a1, a2, a3, a4);
        let ghost returned = result;
        result.into_arg(ret);
        assert(call_ensures(*self, arguments, returned));
    }

    fn signature(&self) -> (r: Result<(Vec<Expr>, Expr), String>) {
        let mut param_tys = Vec::new();
        param_tys.push(A1::parameter_type());
        param_tys.push(A2::parameter_type());
        param_tys.push(A3::parameter_type());
        param_tys.push(A4::parameter_type());
        assert(view_seq(param_tys@) =~= seq![A1::spec_parameter_type(), A2::spec_parameter_type(), A3::spec_parameter_type(), A4::spec_parameter_type()]);
        Ok((param_tys, R::return_type()))
    }
}

impl<'a, A1: FromArg<'a>, A2: FromArg<'a>, A3: FromArg<'a>, A4: FromArg<'a>, A5: FromArg<'a>, R: IntoArg, F: Fn(A1, A2, A3, A4, A5) -> R> NativeFunction<'a, (A1, A2, A3, A4, A5)> for F {
    open spec fn spec_takes(&self, n: nat) -> bool {
        n == 5
    }

    open spec fn spec_reads(&self, args: &'a [MArgument]) -> bool {
        &&& args@.len() == 5
        &&& A1::can_read(args@[0]@)
        &&& A2::can_read(args@[1]@)
        &&& A3::can_read(args@[2]@)
        &&& A4::can_read(args@[3]@)
        &&& A5::can_read(args@[4]@)
    }

    open spec fn can_call(&self, args: &'a [MArgument]) -> bool {
        &&& args@.len() == 5
        &&& A1::can_read(args@[0]@)
        &&& A2::can_read(args@[1]@)
        &&& A3::can_read(args@[2]@)
        &&& A4::can_read(args@[3]@)
        &&& A5::can_read(args@[4]@)
        &&& forall|a1: A1, a2: A2, a3: A3, a4: A4, a5: A5| #[trigger] call_requires(*self, (a1, a2, a3, a4, a5))
        &&& forall|a1: A1, a2: A2, a3: A3, a4: A4, a5: A5, r: R|
            #[trigger] call_ensures(*self, (a1, a2, a3, a4, a5), r) ==> R::can_return(r@)
    }

    open spec fn spec_call(&self, args: &'a [MArgument], before: ArgView, after: ArgView) -> bool {
        exists|a1: A1, a2: A2, a3: A3, a4: A4, a5: A5, r: R|
            {
                &&& a1@ == A1::spec_from_arg(args@[0]@)
                &&& a2@ == A2::spec_from_arg(args@[1]@)
                &&& a3@ == A3::spec_from_arg(args@[2]@)
                &&& a4@ == A4::spec_from_arg(args@[3]@)
                &&& a5@ == A5::spec_from_arg(args@[4]@)
                &&& #[trigger] call_ensures(*self, (a1, a2, a3, a4, a5), r)
                &&& after == R::spec_into_arg(r@, before)
            }
    }

    open spec fn has_signature(&self) -> bool {
        A1::is_parameter_type() && A2::is_parameter_type() && A3::is_parameter_type() && A4::is_parameter_type() && A5::is_parameter_type()
    }

    open spec fn spec_signature(&self) -> Result<(Seq<ExprView>, ExprView), Seq<char>> {
        Ok((seq![A1::spec_parameter_type(), A2::spec_parameter_type(), A3::spec_parameter_type(), A4::spec_parameter_type(), A5::spec_parameter_type()], R::spec_return_type()))
    }

    fn takes(&self, n: usize) -> (r: bool) {
        n == 5
    }

    fn reads(&self, args: &'a [MArgument]) -> (r: bool) {
        args.len() == 5
            && A1::is_readable(&args[0])
            && A2::is_readable(&args[1])
            && A3::is_readable(&args[2])
            && A4::is_readable(&args[3])
            && A5::is_readable(&args[4])
    }

    fn call(&self, args: &'a [MArgument], ret: &mut MArgument) {
        let a1: A1 = A1::from_arg(&args[0]);
        let a2: A2 = A2::from_arg(&args[1]);
        let a3: A3 = A3::from_arg(&args[2]);
        let a4: A4 = A4::from_arg(&args[3]);
        let a5: A5 = A5::from_arg(&args[4]);
        let ghost arguments = (a1, a2, a3, a4, a5);
        let result: R = (self)(a1, a2, a3, a4, a5);
        let ghost returned = result;
        result.into_arg(ret);
        assert(call_ensures(*self, arguments, returned));
    }

    fn signature(&self) -> (r: Result<(Vec<Expr>, Expr), String>) {
        let mut param_tys = Vec::new();
        param_tys.push(A1::parameter_type());
        param_tys.push(A2::parameter_type());
        param_tys.push(A3::parameter_type());
        param_tys.push(A4::parameter_type());
        param_tys.push(A5::parameter_type());
        assert(view_seq(param_tys@) =~= seq![A1::spec_parameter_type(), A2::spec_parameter_type(), A3::spec_parameter_type(), A4::spec_parameter_type(), A5::spec_parameter_type()]);
        Ok((param_tys, R::return_type()))
    }
}

impl<'a, A1: FromArg<'a>, A2: FromArg<'a>, A3: FromArg<'a>, A4: FromArg<'a>, A5: FromArg<'a>, A6: FromArg<'a>, R: IntoArg, F: Fn(A1, A2, A3, A4, A5, A6) -> R> NativeFunction<'a, (A1, A2, A3, A4, A5, A6)> for F {
    open spec fn spec_takes(&self, n: nat) -> bool {
        n == 6
    }

    open spec fn spec_reads(&self, args: &'a [MArgument]) -> bool {
        &&& args@.len() == 6
        &&& A1::can_read(args@[0]@)
        &&& A2::can_read(args@[1]@)
        &&& A3::can_read(args@[2]@)
        &&& A4::can_read(args@[3]@)
        &&& A5::can_read(args@[4]@)
        &&& A6::can_read(args@[5]@)
    }

    open spec fn can_call(&self, args: &'a [MArgument]) -> bool {
        &&& args@.len() == 6
        &&& A1::can_read(args@[0]@)
        &&& A2::can_read(args@[1]@)
        &&& A3::can_read(args@[2]@)
        &&& A4::can_read(args@[3]@)
        &&& A5::can_read(args@[4]@)
        &&& A6::can_read(args@[5]@)
        &&& forall|a1: A1, a2: A2, a3: A3, a4: A4, a5: A5, a6: A6| #[trigger] call_requires(*self, (a1, a2, a3, a4, a5, a6))
        &&& forall|a1: A1, a2: A2, a3: A3, a4: A4, a5: A5, a6: A6, r: R|
            #[trigger] call_ensures(*self, (a1, a2, a3, a4, a5, a6), r) ==> R::can_return(r@)
    }

    open spec fn spec_call(&self, args: &'a [MArgument], before: ArgView, after: ArgView) -> bool {
        exists|a1: A1, a2: A2, a3: A3, a4: A4, a5: A5, a6: A6, r: R|
            {
                &&& a1@ == A1::spec_from_arg(args@[0]@)
                &&& a2@ == A2::spec_from_arg(args@[1]@)
                &&& a3@ == A3::spec_from_arg(args@[2]@)
                &&& a4@ == A4::spec_from_arg(args@[3]@)
                &&& a5@ == A5::spec_from_arg(args@[4]@)
                &&& a6@ == A6::spec_from_arg(args@[5]@)
                &&& #[trigger] call_ensures(*self, (a1, a2, a3, a4, a5, a6), r)
                &&& after == R::spec_into_arg(r@, before)
            }
    }

    open spec fn has_signature(&self) -> bool {
        A1::is_parameter_type() && A2::is_parameter_type() && A3::is_parameter_type() && A4::is_parameter_type() && A5::is_parameter_type() && A6::is_parameter_type()
    }

    open spec fn spec_signature(&self) -> Result<(Seq<ExprView>, ExprView), Seq<char>> {
        Ok((seq![A1::spec_parameter_type(), A2::spec_parameter_type(), A3::spec_parameter_type(), A4::spec_parameter_type(), A5::spec_parameter_type(), A6::spec_parameter_type()], R::spec_return_type()))
    }

    fn takes(&self, n: usize) -> (r: bool) {
        n == 6
    }

    fn reads(&self, args: &'a [MArgument]) -> (r: bool) {
        args.len() == 6
            && A1::is_readable(&args[0])
            && A2::is_readable(&args[1])
            && A3::is_readable(&args[2])
            && A4::is_readable(&args[3])
            && A5::is_readable(&args[4])
            && A6::is_readable(&args[5])
    }

    fn call(&self, args: &'a [MArgument], ret: &mut MArgument) {
        let a1: A1 = A1::from_arg(&args[0]);
        let a2: A2 = A2::from_arg(&args[1]);
        let a3: A3 = A3::from_arg(&args[2]);
        let a4: A4 = A4::from_arg(&args[3]);
        let a5: A5 = A5::from_arg(&args[4]);
        let a6: A6 = A6::from_arg(&args[5]);
        let ghost arguments = (a1, a2, a3, a4, a5, a6);
        let result: R = (self)(a1, a2, a3, a4, a5, a6);
        let ghost returned = result;
        result.into_arg(ret);
        assert(call_ensures(*self, arguments, returned));
    }

    fn signature(&self) -> (r: Result<(Vec<Expr>, Expr), String>) {
        let mut param_tys = Vec::new();
        param_tys.push(A1::parameter_type());
        param_tys.push(A2::parameter_type());
        param_tys.push(A3::parameter_type());
        param_tys.push(A4::parameter_type());
        param_tys.push(A5::parameter_type());
        param_tys.push(A6::parameter_type());
        assert(view_seq(param_tys@) =~= seq![A1::spec_parameter_type(), A2::spec_parameter_type(), A3::spec_parameter_type(), A4::spec_parameter_type(), A5::spec_parameter_type(), A6::spec_parameter_type()]);
        Ok((param_tys, R::return_type()))
    }
}

impl<'a, A1: FromArg<'a>, A2: FromArg<'a>, A3: FromArg<'a>, A4: FromArg<'a>, A5: FromArg<'a>, A6: FromArg<'a>, A7: FromArg<'a>, R: IntoArg, F: Fn(A1, A2, A3, A4, A5, A6, A7) -> R> NativeFunction<'a, (A1, A2, A3, A4, A5, A6, A7)> for F {
    open spec fn spec_takes(&self, n: nat) -> bool {
        n == 7
    }

    open spec fn spec_reads(&self, args: &'a [MArgument]) -> bool {
        &&& args@.len() == 7
        &&& A1::can_read(args@[0]@)
        &&& A2::can_read(args@[1]@)
        &&& A3::can_read(args@[2]@)
        &&& A4::can_read(args@[3]@)
        &&& A5::can_read(args@[4]@)
        &&& A6::can_read(args@[5]@)
        &&& A7::can_read(args@[6]@)
    }

    open spec fn can_call(&self, args: &'a [MArgument]) -> bool {
        &&& args@.len() == 7
        &&& A1::can_read(args@[0]@)
        &&& A2::can_read(args@[1]@)
        &&& A3::can_read(args@[2]@)
        &&& A4::can_read(args@[3]@)
        &&& A5::can_read(args@[4]@)
        &&& A6::can_read(args@[5]@)
        &&& A7::can_read(args@[6]@)
        &&& forall|a1: A1, a2: A2, a3: A3, a4: A4, a5: A5, a6: A6, a7: A7| #[trigger] call_requires(*self, (a1, a2, a3, a4, a5, a6, a7))
        &&& forall|a1: A1, a2: A2, a3: A3, a4: A4, a5: A5, a6: A6, a7: A7, r: R|
            #[trigger] call_ensures(*self, (a1, a2, a3, a4, a5, a6, a7), r) ==> R::can_return(r@)
    }

    open spec fn spec_call(&self, args: &'a [MArgument], before: ArgView, after: ArgView) -> bool {
        exists|a1: A1, a2: A2, a3: A3, a4: A4, a5: A5, a6: A6, a7: A7, r: R|
            {
                &&& a1@ == A1::spec_from_arg(args@[0]@)
                &&& a2@ == A2::spec_from_arg(args@[1]@)
                &&& a3@ == A3::spec_from_arg(args@[2]@)
                &&& a4@ == A4::spec_from_arg(args@[3]@)
                &&& a5@ == A5::spec_from_arg(args@[4]@)
                &&& a6@ == A6::spec_from_arg(args@[5]@)
                &&& a7@ == A7::spec_from_arg(args@[6]@)
                &&& #[trigger] call_ensures(*self, (a1, a2, a3, a4, a5, a6, a7), r)
                &&& after == R::spec_into_arg(r@, before)
            }
    }

    open spec fn has_signature(&self) -> bool {
        A1::is_parameter_type() && A2::is_parameter_type() && A3::is_parameter_type() && A4::is_parameter_type() && A5::is_parameter_type() && A6::is_parameter_type() && A7::is_parameter_type()
    }

    open spec fn spec_signature(&self) -> Result<(Seq<ExprView>, ExprView), Seq<char>> {
        Ok((seq![A1::spec_parameter_type(), A2::spec_parameter_type(), A3::spec_parameter_type(), A4::spec_parameter_type(), A5::spec_parameter_type(), A6::spec_parameter_type(), A7::spec_parameter_type()], R::spec_return_type()))
    }

    fn takes(&self, n: usize) -> (r: bool) {
        n == 7
    }

    fn reads(&self, args: &'a [MArgument]) -> (r: bool) {
        args.len() == 7
            && A1::is_readable(&args[0])
            && A2::is_readable(&args[1])
            && A3::is_readable(&args[2])
            && A4::is_readable(&args[3])
            && A5::is_readable(&args[4])
            && A6::is_readable(&args[5])
            && A7::is_readable(&args[6])
    }

    fn call(&self, args: &'a [MArgument], ret: &mut MArgument) {
        let a1: A1 = A1::from_arg(&args[0]);
        let a2: A2 = A2::from_arg(&args[1]);
        let a3: A3 = A3::from_arg(&args[2]);
        let a4: A4 = A4::from_arg(&args[3]);
        let a5: A5 = A5::from_arg(&args[4]);
        let a6: A6 = A6::from_arg(&args[5]);
        let a7: A7 = A7::from_arg(&args[6]);
        let ghost arguments = (a1, a2, a3, a4, a5, a6, a7);
        let result: R = (self)(a1, a2, a3, a4, a5, a6, a7);
        let ghost returned = result;
        result.into_arg(ret);
        assert(call_ensures(*self, arguments, returned));
    }

    fn signature(&self) -> (r: Result<(Vec<Expr>, Expr), String>) {
        let mut param_tys = Vec::new();
        param_tys.push(A1::parameter_type());
        param_tys.push(A2::parameter_type());
        param_tys.push(A3::parameter_type());
        param_tys.push(A4::parameter_type());
        param_tys.push(A5::parameter_type());
        param_tys.push(A6::parameter_type());
        param_tys.push(A7::parameter_type());
        assert(view_seq(param_tys@) =~= seq![A1::spec_parameter_type(), A2::spec_parameter_type(), A3::spec_parameter_type(), A4::spec_parameter_type(), A5::spec_parameter_type(), A6::spec_parameter_type(), A7::spec_parameter_type()]);
        Ok((param_tys, R::return_type()))
    }
}

impl<'a, A1: FromArg<'a>, A2: FromArg<'a>, A3: FromArg<'a>, A4: FromArg<'a>, A5: FromArg<'a>, A6: FromArg<'a>, A7: FromArg<'a>, A8: FromArg<'a>, R: IntoArg, F: Fn(A1, A2, A3, A4, A5, A6, A7, A8) -> R> NativeFunction<'a, (A1, A2, A3, A4, A5, A6, A7, A8)> for F {
    open spec fn spec_takes(&self, n: nat) -> bool {
        n == 8
    }

    open spec fn spec_reads(&self, args: &'a [MArgument]) -> bool {
        &&& args@.len() == 8
        &&& A1::can_read(args@[0]@)
        &&& A2::can_read(args@[1]@)
        &&& A3::can_read(args@[2]@)
        &&& A4::can_read(args@[3]@)
        &&& A5::can_read(args@[4]@)
        &&& A6::can_read(args@[5]@)
        &&& A7::can_read(args@[6]@)
        &&& A8::can_read(args@[7]@)
    }

    open spec fn can_call(&self, args: &'a [MArgument]) -> bool {
        &&& args@.len() == 8
        &&& A1::can_read(args@[0]@)
        &&& A2::can_read(args@[1]@)
        &&& A3::can_read(args@[2]@)
        &&& A4::can_read(args@[3]@)
        &&& A5::can_read(args@[4]@)
        &&& A6::can_read(args@[5]@)
        &&& A7::can_read(args@[6]@)
        &&& A8::can_read(args@[7]@)
        &&& forall|a1: A1, a2: A2, a3: A3, a4: A4, a5: A5, a6: A6, a7: A7, a8: A8| #[trigger] call_requires(*self, (a1, a2, a3, a4, a5, a6, a7, a8))
        &&& forall|a1: A1, a2: A2, a3: A3, a4: A4, a5: A5, a6: A6, a7: A7, a8: A8, r: R|
            #[trigger] call_ensures(*self, (a1, a2, a3, a4, a5, a6, a7, a8), r) ==> R::can_return(r@)
    }

    open spec fn spec_call(&self, args: &'a [MArgument], before: ArgView, after: ArgView) -> bool {
        exists|a1: A1, a2: A2, a3: A3, a4: A4, a5: A5, a6: A6, a7: A7, a8: A8, r: R|
            {
                &&& a1@ == A1::spec_from_arg(args@[0]@)
                &&& a2@ == A2::spec_from_arg(args@[1]@)
                &&& a3@ == A3::spec_from_arg(args@[2]@)
                &&& a4@ == A4::spec_from_arg(args@[3]@)
                &&& a5@ == A5::spec_from_arg(args@[4]@)
                &&& a6@ == A6::spec_from_arg(args@[5]@)
                &&& a7@ == A7::spec_from_arg(args@[6]@)
                &&& a8@ == A8::spec_from_arg(args@[7]@)
                &&& #[trigger] call_ensures(*self, (a1, a2, a3, a4, a5, a6, a7, a8), r)
                &&& after == R::spec_into_arg(r@, before)
            }
    }

    open spec fn has_signature(&self) -> bool {
        A1::is_parameter_type() && A2::is_parameter_type() && A3::is_parameter_type() && A4::is_parameter_type() && A5::is_parameter_type() && A6::is_parameter_type() && A7::is_parameter_type() && A8::is_parameter_type()
    }

    open spec fn spec_signature(&self) -> Result<(Seq<ExprView>, ExprView), Seq<char>> {
        Ok((seq![A1::spec_parameter_type(), A2::spec_parameter_type(), A3::spec_parameter_type(), A4::spec_parameter_type(), A5::spec_parameter_type(), A6::spec_parameter_type(), A7::spec_parameter_type(), A8::spec_parameter_type()], R::spec_return_type()))
    }

    fn takes(&self, n: usize) -> (r: bool) {
        n == 8
    }

    fn reads(&self, args: &'a [MArgument]) -> (r: bool) {
        args.len() == 8
            && A1::is_readable(&args[0])
            && A2::is_readable(&args[1])
            && A3::is_readable(&args[2])
            && A4::is_readable(&args[3])
            && A5::is_readable(&args[4])
            && A6::is_readable(&args[5])
            && A7::is_readable(&args[6])
            && A8::is_readable(&args[7])
    }

    fn call(&self, args: &'a [MArgument], ret: &mut MArgument) {
        let a1: A1 = A1::from_arg(&args[0]);
        let a2: A2 = A2::from_arg(&args[1]);
        let a3: A3 = A3::from_arg(&args[2]);
        let a4: A4 = A4::from_arg(&args[3]);
        let a5: A5 = A5::from_arg(&args[4]);
        let a6: A6 = A6::from_arg(&args[5]);
        let a7: A7 = A7::from_arg(&args[6]);
        let a8: A8 = A8::from_arg(&args[7]);
        let ghost arguments = (a1, a2, a3, a4, a5, a6, a7, a8);
        let result: R = (self)(a1, a2, a3, a4, a5, a6, a7, a8);
        let ghost returned = result;
        result.into_arg(ret);
        assert(call_ensures(*self, arguments, returned));
    }

    fn signature(&self) -> (r: Result<(Vec<Expr>, Expr), String>) {
        let mut param_tys = Vec::new();
        param_tys.push(A1::parameter_type());
        param_tys.push(A2::parameter_type());
        param_tys.push(A3::parameter_type());
        param_tys.push(A4::parameter_type());
        param_tys.push(A5::parameter_type());
        param_tys.push(A6::parameter_type());
        param_tys.push(A7::parameter_type());
        param_tys.push(A8::parameter_type());
        assert(view_seq(param_tys@) =~= seq![A1::spec_parameter_type(), A2::spec_parameter_type(), A3::spec_parameter_type(), A4::spec_parameter_type(), A5::spec_parameter_type(), A6::spec_parameter_type(), A7::spec_parameter_type(), A8::spec_parameter_type()]);
        Ok((param_tys, R::return_type()))
    }
}

impl<'a, A1: FromArg<'a>, A2: FromArg<'a>, A3: FromArg<'a>, A4: FromArg<'a>, A5: FromArg<'a>, A6: FromArg<'a>, A7: FromArg<'a>, A8: FromArg<'a>, A9: FromArg<'a>, R: IntoArg, F: Fn(A1, A2, A3, A4, A5, A6, A7, A8, A9) -> R> NativeFunction<'a, (A1, A2, A3, A4, A5, A6, A7, A8, A9)> for F {
    open spec fn spec_takes(&self, n: nat) -> bool {
        n == 9
    }

    open spec fn spec_reads(&self, args: &'a [MArgument]) -> bool {
        &&& args@.len() == 9
        &&& A1::can_read(args@[0]@)
        &&& A2::can_read(args@[1]@)
        &&& A3::can_read(args@[2]@)
        &&& A4::can_read(args@[3]@)
        &&& A5::can_read(args@[4]@)
        &&& A6::can_read(args@[5]@)
        &&& A7::can_read(args@[6]@)
        &&& A8::can_read(args@[7]@)
        &&& A9::can_read(args@[8]@)
    }

    open spec fn can_call(&self, args: &'a [MArgument]) -> bool {
        &&& args@.len() == 9
        &&& A1::can_read(args@[0]@)
        &&& A2::can_read(args@[1]@)
        &&& A3::can_read(args@[2]@)
        &&& A4::can_read(args@[3]@)
        &&& A5::can_read(args@[4]@)
        &&& A6::can_read(args@[5]@)
        &&& A7::can_read(args@[6]@)
        &&& A8::can_read(args@[7]@)
        &&& A9::can_read(args@[8]@)
        &&& forall|a1: A1, a2: A2, a3: A3, a4: A4, a5: A5, a6: A6, a7: A7, a8: A8, a9: A9| #[trigger] call_requires(*self, (a1, a2, a3, a4, a5, a6, a7, a8, a9))
        &&& forall|a1: A1, a2: A2, a3: A3, a4: A4, a5: A5, a6: A6, a7: A7, a8: A8, a9: A9, r: R|
            #[trigger] call_ensures(*self, (a1, a2, a3, a4, a5, a6, a7, a8, a9), r) ==> R::can_return(r@)
    }

    open spec fn spec_call(&self, args: &'a [MArgument], before: ArgView, after: ArgView) -> bool {
        exists|a1: A1, a2: A2, a3: A3, a4: A4, a5: A5, a6: A6, a7: A7, a8: A8, a9: A9, r: R|
            {
                &&& a1@ == A1::spec_from_arg(args@[0]@)
                &&& a2@ == A2::spec_from_arg(args@[1]@)
                &&& a3@ == A3::spec_from_arg(args@[2]@)
                &&& a4@ == A4::spec_from_arg(args@[3]@)
                &&& a5@ == A5::spec_from_arg(args@[4]@)
                &&& a6@ == A6::spec_from_arg(args@[5]@)
                &&& a7@ == A7::spec_from_arg(args@[6]@)
                &&& a8@ == A8::spec_from_arg(args@[7]@)
                &&& a9@ == A9::spec_from_arg(args@[8]@)
                &&& #[trigger] call_ensures(*self, (a1, a2, a3, a4, a5, a6, a7, a8, a9), r)
                &&& after == R::spec_into_arg(r@, before)
            }
    }

    open spec fn has_signature(&self) -> bool {
        A1::is_parameter_type() && A2::is_parameter_type() && A3::is_parameter_type() && A4::is_parameter_type() && A5::is_parameter_type() && A6::is_parameter_type() && A7::is_parameter_type() && A8::is_parameter_type() && A9::is_parameter_type()
    }

    open spec fn spec_signature(&self) -> Result<(Seq<ExprView>, ExprView), Seq<char>> {
        Ok((seq![A1::spec_parameter_type(), A2::spec_parameter_type(), A3::spec_parameter_type(), A4::spec_parameter_type(), A5::spec_parameter_type(), A6::spec_parameter_type(), A7::spec_parameter_type(), A8::spec_parameter_type(), A9::spec_parameter_type()], R::spec_return_type()))
    }

    fn takes(&self, n: usize) -> (r: bool) {
        n == 9
    }

    fn reads(&self, args: &'a [MArgument]) -> (r: bool) {
        args.len() == 9
            && A1::is_readable(&args[0])
            && A2::is_readable(&args[1])
            && A3::is_readable(&args[2])
            && A4::is_readable(&args[3])
            && A5::is_readable(&args[4])
            && A6::is_readable(&args[5])
            && A7::is_readable(&args[6])
            && A8::is_readable(&args[7])
            && A9::is_readable(&args[8])
    }

    fn call(&self, args: &'a [MArgument], ret: &mut MArgument) {
        let a1: A1 = A1::from_arg(&args[0]);
        let a2: A2 = A2::from_arg(&args[1]);
        let a3: A3 = A3::from_arg(&args[2]);
        let a4: A4 = A4::from_arg(&args[3]);
        let a5: A5 = A5::from_arg(&args[4]);
        let a6: A6 = A6::from_arg(&args[5]);
        let a7: A7 = A7::from_arg(&args[6]);
        let a8: A8 = A8::from_arg(&args[7]);
        let a9: A9 = A9::from_arg(&args[8]);
        let ghost arguments = (a1, a2, a3, a4, a5, a6, a7, a8, a9);
        let result: R = (self)(a1, a2, a3, a4, a5, a6, a7, a8, a9);
        let ghost returned = result;
        result.into_arg(ret);
        assert(call_ensures(*self, arguments, returned));
    }

    fn signature(&self) -> (r: Result<(Vec<Expr>, Expr), String>) {
        let mut param_tys = Vec::new();
        param_tys.push(A1::parameter_type());
        param_tys.push(A2::parameter_type());
        param_tys.push(A3::parameter_type());
        param_tys.push(A4::parameter_type());
        param_tys.push(A5::parameter_type());
        param_tys.push(A6::parameter_type());
        param_tys.push(A7::parameter_type());
        param_tys.push(A8::parameter_type());
        param_tys.push(A9::parameter_type());
        assert(view_seq(param_tys@) =~= seq![A1::spec_parameter_type(), A2::spec_parameter_type(), A3::spec_parameter_type(), A4::spec_parameter_type(), A5::spec_parameter_type(), A6::spec_parameter_type(), A7::spec_parameter_type(), A8::spec_parameter_type(), A9::spec_parameter_type()]);
        Ok((param_tys, R::return_type()))
    }
}

impl<'a, A1: FromArg<'a>, A2: FromArg<'a>, A3: FromArg<'a>, A4: FromArg<'a>, A5: FromArg<'a>, A6: FromArg<'a>, A7: FromArg<'a>, A8: FromArg<'a>, A9: FromArg<'a>, A10: FromArg<'a>, R: IntoArg, F: Fn(A1, A2, A3, A4, A5, A6, A7, A8, A9, A10) -> R> NativeFunction<'a, (A1, A2, A3, A4, A5, A6, A7, A8, A9, A10)> for F {
    open spec fn spec_takes(&self, n: nat) -> bool {
        n == 10
    }

    open spec fn spec_reads(&self, args: &'a [MArgument]) -> bool {
        &&& args@.len() == 10
        &&& A1::can_read(args@[0]@)
        &&& A2::can_read(args@[1]@)
        &&& A3::can_read(args@[2]@)
        &&& A4::can_read(args@[3]@)
        &&& A5::can_read(args@[4]@)
        &&& A6::can_read(args@[5]@)
        &&& A7::can_read(args@[6]@)
        &&& A8::can_read(args@[7]@)
        &&& A9::can_read(args@[8]@)
        &&& A10::can_read(args@[9]@)
    }

    open spec fn can_call(&self, args: &'a [MArgument]) -> bool {
        &&& args@.len() == 10
        &&& A1::can_read(args@[0]@)
        &&& A2::can_read(args@[1]@)
        &&& A3::can_read(args@[2]@)
        &&& A4::can_read(args@[3]@)
        &&& A5::can_read(args@[4]@)
        &&& A6::can_read(args@[5]@)
        &&& A7::can_read(args@[6]@)
        &&& A8::can_read(args@[7]@)
        &&& A9::can_read(args@[8]@)
        &&& A10::can_read(args@[9]@)
        &&& forall|a1: A1, a2: A2, a3: A3, a4: A4, a5: A5, a6: A6, a7: A7, a8: A8, a9: A9, a10: A10| #[trigger] call_requires(*self, (a1, a2, a3, a4, a5, a6, a7, a8, a9, a10))
        &&& forall|a1: A1, a2: A2, a3: A3, a4: A4, a5: A5, a6: A6, a7: A7, a8: A8, a9: A9, a10: A10, r: R|
            #[trigger] call_ensures(*self, (a1, a2, a3, a4, a5, a6, a7, a8, a9, a10), r) ==> R::can_return(r@)
    }

    open spec fn spec_call(&self, args: &'a [MArgument], before: ArgView, after: ArgView) -> bool {
        exists|a1: A1, a2: A2, a3: A3, a4: A4, a5: A5, a6: A6, a7: A7, a8: A8, a9: A9, a10: A10, r: R|
            {
                &&& a1@ == A1::spec_from_arg(args@[0]@)
                &&& a2@ == A2::spec_from_arg(args@[1]@)
                &&& a3@ == A3::spec_from_arg(args@[2]@)
                &&& a4@ == A4::spec_from_arg(args@[3]@)
                &&& a5@ == A5::spec_from_arg(args@[4]@)
                &&& a6@ == A6::spec_from_arg(args@[5]@)
                &&& a7@ == A7::spec_from_arg(args@[6]@)
                &&& a8@ == A8::spec_from_arg(args@[7]@)
                &&& a9@ == A9::spec_from_arg(args@[8]@)
                &&& a10@ == A10::spec_from_arg(args@[9]@)
                &&& #[trigger] call_ensures(*self, (a1, a2, a3, a4, a5, a6, a7, a8, a9, a10), r)
                &&& after == R::spec_into_arg(r@, before)
            }
    }

    open spec fn has_signature(&self) -> bool {
        A1::is_parameter_type() && A2::is_parameter_type() && A3::is_parameter_type() && A4::is_parameter_type() && A5::is_parameter_type() && A6::is_parameter_type() && A7::is_parameter_type() && A8::is_parameter_type() && A9::is_parameter_type() && A10::is_parameter_type()
    }

    open spec fn spec_signature(&self) -> Result<(Seq<ExprView>, ExprView), Seq<char>> {
        Ok((seq![A1::spec_parameter_type(), A2::spec_parameter_type(), A3::spec_parameter_type(), A4::spec_parameter_type(), A5::spec_parameter_type(), A6::spec_parameter_type(), A7::spec_parameter_type(), A8::spec_parameter_type(), A9::spec_parameter_type(), A10::spec_parameter_type()], R::spec_return_type()))
    }

    fn takes(&self, n: usize) -> (r: bool) {
        n == 10
    }

    fn reads(&self, args: &'a [MArgument]) -> (r: bool) {
        args.len() == 10
            && A1::is_readable(&args[0])
            && A2::is_readable(&args[1])
            && A3::is_readable(&args[2])
            && A4::is_readable(&args[3])
            && A5::is_readable(&args[4])
            && A6::is_readable(&args[5])
            && A7::is_readable(&args[6])
            && A8::is_readable(&args[7])
            && A9::is_readable(&args[8])
            && A10::is_readable(&args[9])
    }

    fn call(&self, args: &'a [MArgument], ret: &mut MArgument) {
        let a1: A1 = A1::from_arg(&args[0]);
        let a2: A2 = A2::from_arg(&args[1]);
        let a3: A3 = A3::from_arg(&args[2]);
        let a4: A4 = A4::from_arg(&args[3]);
        let a5: A5 = A5::from_arg(&args[4]);
        let a6: A6 = A6::from_arg(&args[5]);
        let a7: A7 = A7::from_arg(&args[6]);
        let a8: A8 = A8::from_arg(&args[7]);
        let a9: A9 = A9::from_arg(&args[8]);
        let a10: A10 = A10::from_arg(&args[9]);
        let ghost arguments = (a1, a2, a3, a4, a5, a6, a7, a8, a9, a10);
        let result: R = (self)(a1, a2, a3, a4, a5, a6, a7, a8, a9, a10);
        let ghost returned = result;
        result.into_arg(ret);
        assert(call_ensures(*self, arguments, returned));
    }

    fn signature(&self) -> (r: Result<(Vec<Expr>, Expr), String>) {
        let mut param_tys = Vec::new();
        param_tys.push(A1::parameter_type());
        param_tys.push(A2::parameter_type());
        param_tys.push(A3::parameter_type());
        param_tys.push(A4::parameter_type());
        param_tys.push(A5::parameter_type());
        param_tys.push(A6::parameter_type());
        param_tys.push(A7::parameter_type());
        param_tys.push(A8::parameter_type());
        param_tys.push(A9::parameter_type());
        param_tys.push(A10::parameter_type());
        assert(view_seq(param_tys@) =~= seq![A1::spec_parameter_type(), A2::spec_parameter_type(), A3::spec_parameter_type(), A4::spec_parameter_type(), A5::spec_parameter_type(), A6::spec_parameter_type(), A7::spec_parameter_type(), A8::spec_parameter_type(), A9::spec_parameter_type(), A10::spec_parameter_type()]);
        Ok((param_tys, R::return_type()))
    }
}

impl<'a, A1: FromArg<'a>, A2: FromArg<'a>, A3: FromArg<'a>, A4: FromArg<'a>, A5: FromArg<'a>, A6: FromArg<'a>, A7: FromArg<'a>, A8: FromArg<'a>, A9: FromArg<'a>, A10: FromArg<'a>, A11: FromArg<'a>, R: IntoArg, F: Fn(A1, A2, A3, A4, A5, A6, A7, A8, A9, A10, A11) -> R> NativeFunction<'a, (A1, A2, A3, A4, A5, A6, A7, A8, A9, A10, A11)> for F {
    open spec fn spec_takes(&self, n: nat) -> bool {
        n == 11
    }

    open spec fn spec_reads(&self, args: &'a [MArgument]) -> bool {
        &&& args@.len() == 11
        &&& A1::can_read(args@[0]@)
        &&& A2::can_read(args@[1]@)
        &&& A3::can_read(args@[2]@)
        &&& A4::can_read(args@[3]@)
        &&& A5::can_read(args@[4]@)
        &&& A6::can_read(args@[5]@)
        &&& A7::can_read(args@[6]@)
        &&& A8::can_read(args@[7]@)
        &&& A9::can_read(args@[8]@)
        &&& A10::can_read(args@[9]@)
        &&& A11::can_read(args@[10]@)
    }

    open spec fn can_call(&self, args: &'a [MArgument]) -> bool {
        &&& args@.len() == 11
        &&& A1::can_read(args@[0]@)
        &&& A2::can_read(args@[1]@)
        &&& A3::can_read(args@[2]@)
        &&& A4::can_read(args@[3]@)
        &&& A5::can_read(args@[4]@)
        &&& A6::can_read(args@[5]@)
        &&& A7::can_read(args@[6]@)
        &&& A8::can_read(args@[7]@)
        &&& A9::can_read(args@[8]@)
        &&& A10::can_read(args@[9]@)
        &&& A11::can_read(args@[10]@)
        &&& forall|a1: A1, a2: A2, a3: A3, a4: A4, a5: A5, a6: A6, a7: A7, a8: A8, a9: A9, a10: A10, a11: A11| #[trigger] call_requires(*self, (a1, a2, a3, a4, a5, a6, a7, a8, a9, a10, a11))
        &&& forall|a1: A1, a2: A2, a3: A3, a4: A4, a5: A5, a6: A6, a7: A7, a8: A8, a9: A9, a10: A10, a11: A11, r: R|
            #[trigger] call_ensures(*self, (a1, a2, a3, a4, a5, a6, a7, a8, a9, a10, a11), r) ==> R::can_return(r@)
    }

    open spec fn spec_call(&self, args: &'a [MArgument], before: ArgView, after: ArgView) -> bool {
        exists|a1: A1, a2: A2, a3: A3, a4: A4, a5: A5, a6: A6, a7: A7, a8: A8, a9: A9, a10: A10, a11: A11, r: R|
            {
                &&& a1@ == A1::spec_from_arg(args@[0]@)
                &&& a2@ == A2::spec_from_arg(args@[1]@)
                &&& a3@ == A3::spec_from_arg(args@[2]@)
                &&& a4@ == A4::spec_from_arg(args@[3]@)
                &&& a5@ == A5::spec_from_arg(args@[4]@)
                &&& a6@ == A6::spec_from_arg(args@[5]@)
                &&& a7@ == A7::spec_from_arg(args@[6]@)
                &&& a8@ == A8::spec_from_arg(args@[7]@)
                &&& a9@ == A9::spec_from_arg(args@[8]@)
                &&& a10@ == A10::spec_from_arg(args@[9]@)
                &&& a11@ == A11::spec_from_arg(args@[10]@)
                &&& #[trigger] call_ensures(*self, (a1, a2, a3, a4, a5, a6, a7, a8, a9, a10, a11), r)
                &&& after == R::spec_into_arg(r@, before)
            }
    }

    open spec fn has_signature(&self) -> bool {
        A1::is_parameter_type() && A2::is_parameter_type() && A3::is_parameter_type() && A4::is_parameter_type() && A5::is_parameter_type() && A6::is_parameter_type() && A7::is_parameter_type() && A8::is_parameter_type() && A9::is_parameter_type() && A10::is_parameter_type() && A11::is_parameter_type()
    }

    open spec fn spec_signature(&self) -> Result<(Seq<ExprView>, ExprView), Seq<char>> {
        Ok((seq![A1::spec_parameter_type(), A2::spec_parameter_type(), A3::spec_parameter_type(), A4::spec_parameter_type(), A5::spec_parameter_type(), A6::spec_parameter_type(), A7::spec_parameter_type(), A8::spec_parameter_type(), A9::spec_parameter_type(), A10::spec_parameter_type(), A11::spec_parameter_type()], R::spec_return_type()))
    }

    fn takes(&self, n: usize) -> (r: bool) {
        n == 11
    }

    fn reads(&self, args: &'a [MArgument]) -> (r: bool) {
        args.len() == 11
            && A1::is_readable(&args[0])
            && A2::is_readable(&args[1])
            && A3::is_readable(&args[2])
            && A4::is_readable(&args[3])
            && A5::is_readable(&args[4])
            && A6::is_readable(&args[5])
            && A7::is_readable(&args[6])
            && A8::is_readable(&args[7])
            && A9::is_readable(&args[8])
            && A10::is_readable(&args[9])
            && A11::is_readable(&args[10])
    }

    fn call(&self, args: &'a [MArgument], ret: &mut MArgument) {
        let a1: A1 = A1::from_arg(&args[0]);
        let a2: A2 = A2::from_arg(&args[1]);
        let a3: A3 = A3::from_arg(&args[2]);
        let a4: A4 = A4::from_arg(&args[3]);
        let a5: A5 = A5::from_arg(&args[4]);
        let a6: A6 = A6::from_arg(&args[5]);
        let a7: A7 = A7::from_arg(&args[6]);
        let a8: A8 = A8::from_arg(&args[7]);
        let a9: A9 = A9::from_arg(&args[8]);
        let a10: A10 = A10::from_arg(&args[9]);
        let a11: A11 = A11::from_arg(&args[10]);
        let ghost arguments = (a1, a2, a3, a4, a5, a6, a7, a8, a9, a10, a11);
        let result: R = (self)(a1, a2, a3, a4, a5, a6, a7, a8, a9, a10, a11);
        let ghost returned = result;
        result.into_arg(ret);
        assert(call_ensures(*self, arguments, returned));
    }

    fn signature(&self) -> (r: Result<(Vec<Expr>, Expr), String>) {
        let mut param_tys = Vec::new();
        param_tys.push(A1::parameter_type());
        param_tys.push(A2::parameter_type());
        param_tys.push(A3::parameter_type());
        param_tys.push(A4::parameter_type());
        param_tys.push(A5::parameter_type());
        param_tys.push(A6::parameter_type());
        param_tys.push(A7::parameter_type());
        param_tys.push(A8::parameter_type());
        param_tys.push(A9::parameter_type());
        param_tys.push(A10::parameter_type());
        param_tys.push(A11::parameter_type());
        assert(view_seq(param_tys@) =~= seq![A1::spec_parameter_type(), A2::spec_parameter_type(), A3::spec_parameter_type(), A4::spec_parameter_type(), A5::spec_parameter_type(), A6::spec_parameter_type(), A7::spec_parameter_type(), A8::spec_parameter_type(), A9::spec_parameter_type(), A10::spec_parameter_type(), A11::spec_parameter_type()]);
        Ok((param_tys, R::return_type()))
    }
}

impl<'a, A1: FromArg<'a>, A2: FromArg<'a>, A3: FromArg<'a>, A4: FromArg<'a>, A5: FromArg<'a>, A6: FromArg<'a>, A7: FromArg<'a>, A8: FromArg<'a>, A9: FromArg<'a>, A10: FromArg<'a>, A11: FromArg<'a>, A12: FromArg<'a>, R: IntoArg, F: Fn(A1, A2, A3, A4, A5, A6, A7, A8, A9, A10, A11, A12) -> R> NativeFunction<'a, (A1, A2, A3, A4, A5, A6, A7, A8, A9, A10, A11, A12)> for F {
    open spec fn spec_takes(&self, n: nat) -> bool {
        n == 12
    }

    open spec fn spec_reads(&self, args: &'a [MArgument]) -> bool {
        &&& args@.len() == 12
        &&& A1::can_read(args@[0]@)
        &&& A2::can_read(args@[1]@)
        &&& A3::can_read(args@[2]@)
        &&& A4::can_read(args@[3]@)
        &&& A5::can_read(args@[4]@)
        &&& A6::can_read(args@[5]@)
        &&& A7::can_read(args@[6]@)
        &&& A8::can_read(args@[7]@)
        &&& A9::can_read(args@[8]@)
        &&& A10::can_read(args@[9]@)
        &&& A11::can_read(args@[10]@)
        &&& A12::can_read(args@[11]@)
    }

    open spec fn can_call(&self, args: &'a [MArgument]) -> bool {
        &&& args@.len() == 12
        &&& A1::can_read(args@[0]@)
        &&& A2::can_read(args@[1]@)
        &&& A3::can_read(args@[2]@)
        &&& A4::can_read(args@[3]@)
        &&& A5::can_read(args@[4]@)
        &&& A6::can_read(args@[5]@)
        &&& A7::can_read(args@[6]@)
        &&& A8::can_read(args@[7]@)
        &&& A9::can_read(args@[8]@)
        &&& A10::can_read(args@[9]@)
        &&& A11::can_read(args@[10]@)
        &&& A12::can_read(args@[11]@)
        &&& forall|a1: A1, a2: A2, a3: A3, a4: A4, a5: A5, a6: A6, a7: A7, a8: A8, a9: A9, a10: A10, a11: A11, a12: A12| #[trigger] call_requires(*self, (a1, a2, a3, a4, a5, a6, a7, a8, a9, a10, a11, a12))
        &&& forall|a1: A1, a2: A2, a3: A3, a4: A4, a5: A5, a6: A6, a7: A7, a8: A8, a9: A9, a10: A10, a11: A11, a12: A12, r: R|
            #[trigger] call_ensures(*self, (a1, a2, a3, a4, a5, a6, a7, a8, a9, a10, a11, a12), r) ==> R::can_return(r@)
    }

    open spec fn spec_call(&self, args: &'a [MArgument], before: ArgView, after: ArgView) -> bool {
        exists|a1: A1, a2: A2, a3: A3, a4: A4, a5: A5, a6: A6, a7: A7, a8: A8, a9: A9, a10: A10, a11: A11, a12: A12, r: R|
            {
                &&& a1@ == A1::spec_from_arg(args@[0]@)
                &&& a2@ == A2::spec_from_arg(args@[1]@)
                &&& a3@ == A3::spec_from_arg(args@[2]@)
                &&& a4@ == A4::spec_from_arg(args@[3]@)
                &&& a5@ == A5::spec_from_arg(args@[4]@)
                &&& a6@ == A6::spec_from_arg(args@[5]@)
                &&& a7@ == A7::spec_from_arg(args@[6]@)
                &&& a8@ == A8::spec_from_arg(args@[7]@)
                &&& a9@ == A9::spec_from_arg(args@[8]@)
                &&& a10@ == A10::spec_from_arg(args@[9]@)
                &&& a11@ == A11::spec_from_arg(args@[10]@)
                &&& a12@ == A12::spec_from_arg(args@[11]@)
                &&& #[trigger] call_ensures(*self, (a1, a2, a3, a4, a5, a6, a7, a8, a9, a10, a11, a12), r)
                &&& after == R::spec_into_arg(r@, before)
            }
    }

    open spec fn has_signature(&self) -> bool {
        A1::is_parameter_type() && A2::is_parameter_type() && A3::is_parameter_type() && A4::is_parameter_type() && A5::is_parameter_type() && A6::is_parameter_type() && A7::is_parameter_type() && A8::is_parameter_type() && A9::is_parameter_type() && A10::is_parameter_type() && A11::is_parameter_type() && A12::is_parameter_type()
    }

    open spec fn spec_signature(&self) -> Result<(Seq<ExprView>, ExprView), Seq<char>> {
        Ok((seq![A1::spec_parameter_type(), A2::spec_parameter_type(), A3::spec_parameter_type(), A4::spec_parameter_type(), A5::spec_parameter_type(), A6::spec_parameter_type(), A7::spec_parameter_type(), A8::spec_parameter_type(), A9::spec_parameter_type(), A10::spec_parameter_type(), A11::spec_parameter_type(), A12::spec_parameter_type()], R::spec_return_type()))
    }

    fn takes(&self, n: usize) -> (r: bool) {
        n == 12
    }

    fn reads(&self, args: &'a [MArgument]) -> (r: bool) {
        args.len() == 12
            && A1::is_readable(&args[0])
            && A2::is_readable(&args[1])
            && A3::is_readable(&args[2])
            && A4::is_readable(&args[3])
            && A5::is_readable(&args[4])
            && A6::is_readable(&args[5])
            && A7::is_readable(&args[6])
            && A8::is_readable(&args[7])
            && A9::is_readable(&args[8])
            && A10::is_readable(&args[9])
            && A11::is_readable(&args[10])
            && A12::is_readable(&args[11])
    }

    fn call(&self, args: &'a [MArgument], ret: &mut MArgument) {
        let a1: A1 = A1::from_arg(&args[0]);
        let a2: A2 = A2::from_arg(&args[1]);
        let a3: A3 = A3::from_arg(&args[2]);
        let a4: A4 = A4::from_arg(&args[3]);
        let a5: A5 = A5::from_arg(&args[4]);
        let a6: A6 = A6::from_arg(&args[5]);
        let a7: A7 = A7::from_arg(&args[6]);
        let a8: A8 = A8::from_arg(&args[7]);
        let a9: A9 = A9::from_arg(&args[8]);
        let a10: A10 = A10::from_arg(&args[9]);
        let a11: A11 = A11::from_arg(&args[10]);
        let a12: A12 = A12::from_arg(&args[11]);
        let ghost arguments = (a1, a2, a3, a4, a5, a6, a7, a8, a9, a10, a11, a12);
        let result: R = (self)(a1, a2, a3, a4, a5, a6, a7, a8, a9, a10, a11, a12);
        let ghost returned = result;
        result.into_arg(ret);
        assert(call_ensures(*self, arguments, returned));
    }

    fn signature(&self) -> (r: Result<(Vec<Expr>, Expr), String>) {
        let mut param_tys = Vec::new();
        param_tys.push(A1::parameter_type());
        param_tys.push(A2::parameter_type());
        param_tys.push(A3::parameter_type());
        param_tys.push(A4::parameter_type());
        param_tys.push(A5::parameter_type());
        param_tys.push(A6::parameter_type());
        param_tys.push(A7::parameter_type());
        param_tys.push(A8::parameter_type());
        param_tys.push(A9::parameter_type());
        param_tys.push(A10::parameter_type());
        param_tys.push(A11::parameter_type());
        param_tys.push(A12::parameter_type());
        assert(view_seq(param_tys@) =~= seq![A1::spec_parameter_type(), A2::spec_parameter_type(), A3::spec_parameter_type(), A4::spec_parameter_type(), A5::spec_parameter_type(), A6::spec_parameter_type(), A7::spec_parameter_type(), A8::spec_parameter_type(), A9::spec_parameter_type(), A10::spec_parameter_type(), A11::spec_parameter_type(), A12::spec_parameter_type()]);
        Ok((param_tys, R::return_type()))
    }
}


//======================================
// WstpFunction
//======================================

/// The `Params` of functions that take the argument expressions and return an
/// expression.
pub struct ExprsToExpr;

/// The `Params` of functions that take the argument expressions and return nothing.
pub struct ExprsToNull;

/// Trait implemented for any function whose parameters and return value are passed
/// as expressions over a WSTP link: the argument list is read from the link, and what
/// [`WstpFunction::call`] returns is written back to it.
///
/// A function implements this trait if its type signature is one of:
///
/// * `fn(_: Vec<Expr>) -> Expr` (`Params` = [`ExprsToExpr`])
/// * `fn(_: Vec<Expr>)` (`Params` = [`ExprsToNull`])
pub trait WstpFunction<Params> {
    /// Whether the function can be called on any argument list.
    spec fn can_call(&self) -> bool;

    /// Whether calling the function on `args` can answer `reply`.
    spec fn spec_reply(&self, args: Vec<Expr>, reply: Expr) -> bool;

    /// Call the function on the argument list read from the link; the result is the
    /// expression to write back.
    fn call(&self, args: Vec<Expr>) -> (reply: Expr)
        requires
            self.can_call(),
        ensures
            self.spec_reply(args, reply),
    ;
}

impl<F: Fn(Vec<Expr>) -> Expr> WstpFunction<ExprsToExpr> for F {
    open spec fn can_call(&self) -> bool {
        forall|args: Vec<Expr>| #[trigger] call_requires(*self, (args,))
    }

    open spec fn spec_reply(&self, args: Vec<Expr>, reply: Expr) -> bool {
        call_ensures(*self, (args,), reply)
    }

    fn call(&self, args: Vec<Expr>) -> (reply: Expr) {
        (self)(args)
    }
}

impl<F: Fn(Vec<Expr>)> WstpFunction<ExprsToNull> for F {
    open spec fn can_call(&self) -> bool {
        forall|args: Vec<Expr>| #[trigger] call_requires(*self, (args,))
    }

    open spec fn spec_reply(&self, args: Vec<Expr>, reply: Expr) -> bool {
        &&& call_ensures(*self, (args,), ())
        &&& reply@ == symbol_view("System`Null"@)
    }

    fn call(&self, args: Vec<Expr>) -> (reply: Expr) {
        let _null: () = (self)(args);
        symbol_expr("System`Null")
    }
}

//----------------------------
// Utilities
//----------------------------

/// The argument list of a WSTP function, from what reading an expression from the
/// link gave (the expression, or the text of the link's error): the elements of a
/// ``System`List`` expression, or a message that says what went wrong.
pub fn get_args_list(read: Result<Expr, String>) -> (r: Result<Vec<Expr>, String>)
    ensures
        match read {
            Err(err) => r matches Err(message) && message@
                == "WSTP error reading argument List expression: "@ + err@,
            Ok(list) => match list_elements(list@) {
                Some(elements) => r matches Ok(args) && view_seq(args@) == elements,
                None => r matches Err(message) && message@ == "expected List expression"@,
            },
        },
        match read {
            Ok(Expr::Normal(head, elements)) => (*head)@ == ExprView::Symbol("System`List"@) ==> (
            r matches Ok(args) && view_seq(args@) == view_seq(elements@)),
            _ => true,
        },
{
    let list = match read {
        Ok(args) => args,
        Err(err) => {
            let mut message = String::from_str("WSTP error reading argument List expression: ");
            message.append(err.as_str());
            return Err(message);
        },
    };
    let list_symbol = Symbol::new("System`List");
    if !list.has_head(&list_symbol) {
        return Err(String::from_str("expected List expression"));
    }
    match list {
        Expr::Normal(_, elements) => Ok(elements),
        _ => Err(String::from_str("expected List expression")),
    }
}

} // verus!
