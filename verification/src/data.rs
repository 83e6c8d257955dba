//! The data that LibraryLink functions take and return besides scalars: C strings
//! and handles to numeric arrays, images and data stores owned by the Kernel.

use core::marker::PhantomData;
use vstd::prelude::*;

verus! {

/// An owned byte string that holds no NUL byte, as a UTF8String argument or
/// result carries it (without its terminating NUL).
pub struct CString {
    bytes: Vec<u8>,
}

impl View for CString {
    type V = Seq<u8>;

    closed spec fn view(&self) -> Seq<u8> {
        self.bytes@
    }
}

/// The error of [`CString::new`]: the bytes held a NUL byte, first at `position`.
pub struct NulError {
    position: usize,
    bytes: Vec<u8>,
}

impl NulError {
    pub closed spec fn spec_position(&self) -> nat {
        self.position as nat
    }

    pub closed spec fn spec_bytes(&self) -> Seq<u8> {
        self.bytes@
    }

    /// The position of the first NUL byte.
    pub fn nul_position(&self) -> (r: usize)
        ensures
            r == self.spec_position(),
    {
        self.position
    }

    /// The bytes that were given to [`CString::new`].
    pub fn into_vec(self) -> (r: Vec<u8>)
        ensures
            r@ == self.spec_bytes(),
    {
        self.bytes
    }
}

/// The index of the first NUL byte of `bytes`, if it holds one.
pub open spec fn first_nul(bytes: Seq<u8>) -> Option<nat> {
    if bytes.contains(0u8) {
        Some(choose|i: nat| i < bytes.len() && bytes[i as int] == 0u8 && forall|j: int|
            0 <= j < i ==> bytes[j] != 0u8)
    } else {
        None
    }
}

impl CString {
    #[verifier::type_invariant]
    closed spec fn no_interior_nul(self) -> bool {
        !self.bytes@.contains(0u8)
    }

    /// A C string holding `bytes`; an error, which holds the bytes and the position
    /// of the first NUL byte, when they hold one.
    pub fn new(bytes: Vec<u8>) -> (r: Result<CString, NulError>)
        ensures
            match r {
                Ok(s) => s@ == bytes@ && !bytes@.contains(0u8),
                Err(e) => bytes@.contains(0u8) && first_nul(bytes@) == Some(e.spec_position())
                    && e.spec_bytes() == bytes@,
            },
    {
        let n = bytes.len();
        let mut i: usize = 0;
        while i < n
            invariant
                n == bytes@.len(),
                i <= n,
                forall|j: int| 0 <= j < i ==> bytes@[j] != 0u8,
            decreases n - i,
        {
            if bytes[i] == 0 {
                proof {
                    let p = i as nat;
                    assert(bytes@.contains(0u8));
                    let c = choose|k: nat| k < bytes@.len() && bytes@[k as int] == 0u8 && forall|j: int|
                        0 <= j < k ==> bytes@[j] != 0u8;
                    assert(p < bytes@.len() && bytes@[p as int] == 0u8 && forall|j: int|
                        0 <= j < p ==> bytes@[j] != 0u8);
                    if c < p {
                        assert(bytes@[c as int] != 0u8);
                    } else if c > p {
                        assert(bytes@[p as int] != 0u8);
                    }
                }
                return Err(NulError { position: i, bytes });
            }
            i = i + 1;
        }
        assert(!bytes@.contains(0u8));
        Ok(CString { bytes })
    }

    /// The empty string.
    pub fn empty() -> (r: CString)
        ensures
            r@ == Seq::<u8>::empty(),
    {
        CString { bytes: Vec::new() }
    }

    /// The bytes of the string, none of which is NUL.
    pub fn as_bytes(&self) -> (r: &[u8])
        ensures
            r@ == self@,
            !self@.contains(0u8),
    {
        proof {
            use_type_invariant(self);
        }
        self.bytes.as_slice()
    }

    /// The bytes of the string, none of which is NUL.
    pub fn into_bytes(self) -> (r: Vec<u8>)
        ensures
            r@ == self@,
            !r@.contains(0u8),
    {
        proof {
            use_type_invariant(&self);
        }
        self.bytes
    }

    /// An owned copy of this string.
    pub fn copy(&self) -> (r: CString)
        ensures
            r@ == self@,
    {
        proof {
            use_type_invariant(self);
        }
        let n = self.bytes.len();
        let mut bytes: Vec<u8> = Vec::with_capacity(n);
        let mut i: usize = 0;
        while i < n
            invariant
                n == self.bytes@.len(),
                i <= n,
                bytes@ =~= self.bytes@.subrange(0, i as int),
            decreases n - i,
        {
            bytes.push(self.bytes[i]);
            i = i + 1;
        }
        assert(bytes@ =~= self.bytes@);
        CString { bytes }
    }
}

/// The element types of numeric arrays.
#[derive(PartialEq, Eq, Structural, Clone, Copy)]
pub enum NumericArrayDataType {
    Bit8,
    Bit16,
    Bit32,
    Bit64,
    UBit8,
    UBit16,
    UBit32,
    UBit64,
    Real32,
    Real64,
    ComplexReal32,
    ComplexReal64,
}

impl NumericArrayDataType {
    /// The name of the element type in the Wolfram Language.
    pub open spec fn spec_name(self) -> Seq<char> {
        match self {
            NumericArrayDataType::Bit8 => "Integer8"@,
            NumericArrayDataType::Bit16 => "Integer16"@,
            NumericArrayDataType::Bit32 => "Integer32"@,
            NumericArrayDataType::Bit64 => "Integer64"@,
            NumericArrayDataType::UBit8 => "UnsignedInteger8"@,
            NumericArrayDataType::UBit16 => "UnsignedInteger16"@,
            NumericArrayDataType::UBit32 => "UnsignedInteger32"@,
            NumericArrayDataType::UBit64 => "UnsignedInteger64"@,
            NumericArrayDataType::Real32 => "Real32"@,
            NumericArrayDataType::Real64 => "Real64"@,
            NumericArrayDataType::ComplexReal32 => "ComplexReal32"@,
            NumericArrayDataType::ComplexReal64 => "ComplexReal64"@,
        }
    }

    /// The name of the element type in the Wolfram Language, such as `"Integer8"`.
    pub fn name(&self) -> (r: &'static str)
        ensures
            r@ == self.spec_name(),
    {
        match self {
            NumericArrayDataType::Bit8 => "Integer8",
            NumericArrayDataType::Bit16 => "Integer16",
            NumericArrayDataType::Bit32 => "Integer32",
            NumericArrayDataType::Bit64 => "Integer64",
            NumericArrayDataType::UBit8 => "UnsignedInteger8",
            NumericArrayDataType::UBit16 => "UnsignedInteger16",
            NumericArrayDataType::UBit32 => "UnsignedInteger32",
            NumericArrayDataType::UBit64 => "UnsignedInteger64",
            NumericArrayDataType::Real32 => "Real32",
            NumericArrayDataType::Real64 => "Real64",
            NumericArrayDataType::ComplexReal32 => "ComplexReal32",
            NumericArrayDataType::ComplexReal64 => "ComplexReal64",
        }
    }
}

/// Rust types that are element types of numeric arrays.
pub trait NumericArrayType {
    spec fn spec_data_type() -> NumericArrayDataType;

    /// The numeric array element type that this Rust type stands for.
    fn data_type() -> (r: NumericArrayDataType)
        ensures
            r == Self::spec_data_type(),
    ;
}

impl NumericArrayType for i8 {
    open spec fn spec_data_type() -> NumericArrayDataType {
        NumericArrayDataType::Bit8
    }

    fn data_type() -> (r: NumericArrayDataType) {
        NumericArrayDataType::Bit8
    }
}

impl NumericArrayType for i16 {
    open spec fn spec_data_type() -> NumericArrayDataType {
        NumericArrayDataType::Bit16
    }

    fn data_type() -> (r: NumericArrayDataType) {
        NumericArrayDataType::Bit16
    }
}

impl NumericArrayType for i32 {
    open spec fn spec_data_type() -> NumericArrayDataType {
        NumericArrayDataType::Bit32
    }

    fn data_type() -> (r: NumericArrayDataType) {
        NumericArrayDataType::Bit32
    }
}

impl NumericArrayType for i64 {
    open spec fn spec_data_type() -> NumericArrayDataType {
        NumericArrayDataType::Bit64
    }

    fn data_type() -> (r: NumericArrayDataType) {
        NumericArrayDataType::Bit64
    }
}

impl NumericArrayType for u8 {
    open spec fn spec_data_type() -> NumericArrayDataType {
        NumericArrayDataType::UBit8
    }

    fn data_type() -> (r: NumericArrayDataType) {
        NumericArrayDataType::UBit8
    }
}

impl NumericArrayType for u16 {
    open spec fn spec_data_type() -> NumericArrayDataType {
        NumericArrayDataType::UBit16
    }

    fn data_type() -> (r: NumericArrayDataType) {
        NumericArrayDataType::UBit16
    }
}

impl NumericArrayType for u32 {
    open spec fn spec_data_type() -> NumericArrayDataType {
        NumericArrayDataType::UBit32
    }

    fn data_type() -> (r: NumericArrayDataType) {
        NumericArrayDataType::UBit32
    }
}

impl NumericArrayType for u64 {
    open spec fn spec_data_type() -> NumericArrayDataType {
        NumericArrayDataType::UBit64
    }

    fn data_type() -> (r: NumericArrayDataType) {
        NumericArrayDataType::UBit64
    }
}

/// A numeric array owned by the Kernel, known by its handle; `T` is its element
/// type, or `()` when that is not fixed.
pub struct NumericArray<T> {
    raw: usize,
    element: PhantomData<T>,
}

impl<T> View for NumericArray<T> {
    type V = usize;

    closed spec fn view(&self) -> usize {
        self.raw
    }
}

impl<T> NumericArray<T> {
    /// The numeric array with the given handle.
    pub fn from_raw(raw: usize) -> (r: NumericArray<T>)
        ensures
            r@ == raw,
    {
        NumericArray { raw, element: PhantomData }
    }

    /// The handle of this numeric array.
    pub fn into_raw(self) -> (r: usize)
        ensures
            r == self@,
    {
        self.raw
    }

    /// The handle of this numeric array.
    pub fn as_raw(&self) -> (r: usize)
        ensures
            r == self@,
    {
        self.raw
    }
}

/// A numeric array with elements of type `T`, borrowed from the argument slot that
/// holds it: the Kernel keeps it, and nothing mutates it.
pub struct BorrowedNumericArray<'a, T> {
    array: &'a NumericArray<()>,
    element: PhantomData<T>,
}

impl<'a, T> View for BorrowedNumericArray<'a, T> {
    type V = usize;

    closed spec fn view(&self) -> usize {
        self.array@
    }
}

impl<'a, T> BorrowedNumericArray<'a, T> {
    /// The numeric array `array`, taken to have elements of type `T`.
    pub fn new(array: &'a NumericArray<()>) -> (r: BorrowedNumericArray<'a, T>)
        ensures
            r@ == array@,
    {
        BorrowedNumericArray { array, element: PhantomData }
    }

    /// The handle of this numeric array.
    pub fn as_raw(&self) -> (r: usize)
        ensures
            r == self@,
    {
        self.array.as_raw()
    }
}

/// The pixel types of images.
#[derive(PartialEq, Eq, Structural, Clone, Copy)]
pub enum ImageType {
    Bit,
    Bit8,
    Bit16,
    Real32,
    Real64,
}

impl ImageType {
    /// The name of the pixel type in the Wolfram Language.
    pub open spec fn spec_name(self) -> Seq<char> {
        match self {
            ImageType::Bit => "Bit"@,
            ImageType::Bit8 => "Byte"@,
            ImageType::Bit16 => "Bit16"@,
            ImageType::Real32 => "Real32"@,
            ImageType::Real64 => "Real"@,
        }
    }

    /// The name of the pixel type in the Wolfram Language, such as `"Byte"`.
    pub fn name(&self) -> (r: &'static str)
        ensures
            r@ == self.spec_name(),
    {
        match self {
            ImageType::Bit => "Bit",
            ImageType::Bit8 => "Byte",
            ImageType::Bit16 => "Bit16",
            ImageType::Real32 => "Real32",
            ImageType::Real64 => "Real",
        }
    }
}

/// Rust types that are pixel types of images.
pub trait ImageData {
    spec fn spec_image_type() -> ImageType;

    /// The image pixel type that this Rust type stands for.
    fn image_type() -> (r: ImageType)
        ensures
            r == Self::spec_image_type(),
    ;
}

impl ImageData for bool {
    open spec fn spec_image_type() -> ImageType {
        ImageType::Bit
    }

    fn image_type() -> (r: ImageType) {
        ImageType::Bit
    }
}

impl ImageData for u8 {
    open spec fn spec_image_type() -> ImageType {
        ImageType::Bit8
    }

    fn image_type() -> (r: ImageType) {
        ImageType::Bit8
    }
}

impl ImageData for u16 {
    open spec fn spec_image_type() -> ImageType {
        ImageType::Bit16
    }

    fn image_type() -> (r: ImageType) {
        ImageType::Bit16
    }
}

/// An image owned by the Kernel, known by its handle; `T` is its pixel type, or
/// `()` when that is not fixed.
pub struct Image<T> {
    raw: usize,
    pixel: PhantomData<T>,
}

impl<T> View for Image<T> {
    type V = usize;

    closed spec fn view(&self) -> usize {
        self.raw
    }
}

impl<T> Image<T> {
    /// The image with the given handle.
    pub fn from_raw(raw: usize) -> (r: Image<T>)
        ensures
            r@ == raw,
    {
        Image { raw, pixel: PhantomData }
    }

    /// The handle of this image.
    pub fn into_raw(self) -> (r: usize)
        ensures
            r == self@,
    {
        self.raw
    }

    /// The handle of this image.
    pub fn as_raw(&self) -> (r: usize)
        ensures
            r == self@,
    {
        self.raw
    }
}

/// An image with pixels of type `T`, borrowed from the argument slot that holds it:
/// the Kernel keeps it, and nothing mutates it.
pub struct BorrowedImage<'a, T> {
    image: &'a Image<()>,
    pixel: PhantomData<T>,
}

impl<'a, T> View for BorrowedImage<'a, T> {
    type V = usize;

    closed spec fn view(&self) -> usize {
        self.image@
    }
}

impl<'a, T> BorrowedImage<'a, T> {
    /// The image `image`, taken to have pixels of type `T`.
    pub fn new(image: &'a Image<()>) -> (r: BorrowedImage<'a, T>)
        ensures
            r@ == image@,
    {
        BorrowedImage { image, pixel: PhantomData }
    }

    /// The handle of this image.
    pub fn as_raw(&self) -> (r: usize)
        ensures
            r == self@,
    {
        self.image.as_raw()
    }
}

/// A data store owned by the Kernel, known by its handle.
pub struct DataStore {
    raw: usize,
}

impl View for DataStore {
    type V = usize;

    closed spec fn view(&self) -> usize {
        self.raw
    }
}

impl DataStore {
    /// The data store with the given handle.
    pub fn from_raw(raw: usize) -> (r: DataStore)
        ensures
            r@ == raw,
    {
        DataStore { raw }
    }

    /// The handle of this data store.
    pub fn into_raw(self) -> (r: usize)
        ensures
            r == self@,
    {
        self.raw
    }

    /// The handle of this data store.
    pub fn as_raw(&self) -> (r: usize)
        ensures
            r == self@,
    {
        self.raw
    }
}

} // verus!
