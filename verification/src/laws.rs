//! Laws that relate the conversions to each other.

use crate::args::{normal2_view, FromArg, IntoArg};
use crate::data::{
    first_nul, BorrowedImage, BorrowedNumericArray, CString, DataStore, Image, ImageData,
    NumericArray, NumericArrayType,
};
use crate::expr::{int_text, render, ExprView};
use crate::sys::{mint, ArgView};
use vstd::prelude::*;
use vstd::utf8::{
    char_is_scalar, char_u32_cast, decode_utf8, encode_scalar, encode_utf8,
    encode_utf8_decode_utf8, encode_utf8_valid_utf8, has_width_1_encoding, is_scalar,
    last_continuation_byte, leading_byte_width_1, leading_byte_width_2, leading_byte_width_3,
    leading_byte_width_4, second_last_continuation_byte, third_last_continuation_byte,
    valid_utf8,
};

verus! {

/// A `bool` written to a result slot reads back as the same `bool`.
pub proof fn lemma_bool_round_trip(v: bool, slot: ArgView)
    ensures
        <bool as FromArg>::can_read(<bool as IntoArg>::spec_into_arg(v, slot)),
        <bool as FromArg>::spec_from_arg(<bool as IntoArg>::spec_into_arg(v, slot)) == v,
{
}

/// An integer written to a result slot reads back as the same integer.
pub proof fn lemma_mint_round_trip(v: mint, slot: ArgView)
    ensures
        <mint as FromArg>::can_read(<mint as IntoArg>::spec_into_arg(v, slot)),
        <mint as FromArg>::spec_from_arg(<mint as IntoArg>::spec_into_arg(v, slot)) == v,
{
}

/// A narrow integer written to a result slot reads back, as an `mint`, with the same
/// value: the widening loses nothing.
pub proof fn lemma_narrow_integers_round_trip(a: i8, b: i16, c: i32, d: u8, e: u16, f: u32, slot: ArgView)
    ensures
        <mint as FromArg>::spec_from_arg(<i8 as IntoArg>::spec_into_arg(a, slot)) == a as int,
        <mint as FromArg>::spec_from_arg(<i16 as IntoArg>::spec_into_arg(b, slot)) == b as int,
        <mint as FromArg>::spec_from_arg(<i32 as IntoArg>::spec_into_arg(c, slot)) == c as int,
        <mint as FromArg>::spec_from_arg(<u8 as IntoArg>::spec_into_arg(d, slot)) == d as int,
        <mint as FromArg>::spec_from_arg(<u16 as IntoArg>::spec_into_arg(e, slot)) == e as int,
        <mint as FromArg>::spec_from_arg(<u32 as IntoArg>::spec_into_arg(f, slot)) == f as int,
{
}

/// A C string written to a result slot reads back with the same bytes.
pub proof fn lemma_cstring_round_trip(v: Seq<u8>, slot: ArgView)
    ensures
        <CString as FromArg>::can_read(<CString as IntoArg>::spec_into_arg(v, slot)),
        <CString as FromArg>::spec_from_arg(<CString as IntoArg>::spec_into_arg(v, slot)) == v,
{
}

/// A string that can be returned (it holds no NUL character) reads back, from the
/// slot it was written to, as the same text: its UTF-8 bytes are valid and decode
/// to it.
pub proof fn lemma_string_round_trip(v: Seq<char>, slot: ArgView)
    requires
        <String as IntoArg>::can_return(v),
    ensures
        <String as FromArg>::can_read(<String as IntoArg>::spec_into_arg(v, slot)),
        <String as FromArg>::spec_from_arg(<String as IntoArg>::spec_into_arg(v, slot)) == v,
{
    encode_utf8_valid_utf8(v);
    encode_utf8_decode_utf8(v);
}

/// A numeric array, image or data store written to a result slot reads back with
/// the same handle.
pub proof fn lemma_handles_round_trip<T: NumericArrayType, U: ImageData>(h: usize, slot: ArgView)
    ensures
        <NumericArray<T> as FromArg>::can_read(<NumericArray<T> as IntoArg>::spec_into_arg(h, slot)),
        <NumericArray<T> as FromArg>::spec_from_arg(<NumericArray<T> as IntoArg>::spec_into_arg(h, slot)) == h,
        <NumericArray<()> as FromArg>::can_read(<NumericArray<()> as IntoArg>::spec_into_arg(h, slot)),
        <NumericArray<()> as FromArg>::spec_from_arg(<NumericArray<()> as IntoArg>::spec_into_arg(h, slot)) == h,
        <Image<U> as FromArg>::can_read(<Image<U> as IntoArg>::spec_into_arg(h, slot)),
        <Image<U> as FromArg>::spec_from_arg(<Image<U> as IntoArg>::spec_into_arg(h, slot)) == h,
        <BorrowedNumericArray<T> as FromArg>::can_read(<NumericArray<T> as IntoArg>::spec_into_arg(h, slot)),
        <BorrowedNumericArray<T> as FromArg>::spec_from_arg(<NumericArray<T> as IntoArg>::spec_into_arg(h, slot)) == h,
        <BorrowedImage<U> as FromArg>::can_read(<Image<U> as IntoArg>::spec_into_arg(h, slot)),
        <BorrowedImage<U> as FromArg>::spec_from_arg(<Image<U> as IntoArg>::spec_into_arg(h, slot)) == h,
        <DataStore as FromArg>::can_read(<DataStore as IntoArg>::spec_into_arg(h, slot)),
        <DataStore as FromArg>::spec_from_arg(<DataStore as IntoArg>::spec_into_arg(h, slot)) == h,
{
}

/// The parameter type of a numeric array or an image is ``{t, "<mode>"}`` where `t` is
/// its return type: `"Shared"` for an owned one and `"Constant"` for a borrowed one;
/// so the parameter type and the return type differ.
pub proof fn lemma_parameter_type_is_return_type_with_mode<T: NumericArrayType, U: ImageData>()
    ensures
        <NumericArray<T> as FromArg>::spec_parameter_type() == normal2_view(
            "System`List"@,
            <NumericArray<T> as IntoArg>::spec_return_type(),
            ExprView::String("Shared"@),
        ),
        <BorrowedNumericArray<T> as FromArg>::spec_parameter_type() == normal2_view(
            "System`List"@,
            <NumericArray<T> as IntoArg>::spec_return_type(),
            ExprView::String("Constant"@),
        ),
        <NumericArray<()> as FromArg>::spec_parameter_type() == normal2_view(
            "System`List"@,
            <NumericArray<()> as IntoArg>::spec_return_type(),
            ExprView::String("Shared"@),
        ),
        <Image<U> as FromArg>::spec_parameter_type() == normal2_view(
            "System`List"@,
            <Image<U> as IntoArg>::spec_return_type(),
            ExprView::String("Shared"@),
        ),
        <BorrowedImage<U> as FromArg>::spec_parameter_type() == normal2_view(
            "System`List"@,
            <Image<U> as IntoArg>::spec_return_type(),
            ExprView::String("Constant"@),
        ),
        <NumericArray<T> as FromArg>::spec_parameter_type() != <NumericArray<T> as IntoArg>::spec_return_type(),
        <Image<U> as FromArg>::spec_parameter_type() != <Image<U> as IntoArg>::spec_return_type(),
{
    let na = <NumericArray<T> as IntoArg>::spec_return_type();
    let im = <Image<U> as IntoArg>::spec_return_type();
    assert(na is Normal && na->Normal_0 == Box::new(ExprView::Symbol("System`LibraryDataType"@)));
    assert(im is Normal && im->Normal_0 == Box::new(ExprView::Symbol("System`LibraryDataType"@)));
    reveal_strlit("System`List");
    reveal_strlit("System`LibraryDataType");
    assert("System`List"@ != "System`LibraryDataType"@) by {
        assert("System`List"@.len() != "System`LibraryDataType"@.len());
    }
}

/// Every integer type is returned, and `mint` is passed, as ``System`Integer``.
pub proof fn lemma_integer_types_are_integer()
    ensures
        <mint as FromArg>::spec_parameter_type() == ExprView::Symbol("System`Integer"@),
        <mint as IntoArg>::spec_return_type() == ExprView::Symbol("System`Integer"@),
        <i8 as IntoArg>::spec_return_type() == ExprView::Symbol("System`Integer"@),
        <i16 as IntoArg>::spec_return_type() == ExprView::Symbol("System`Integer"@),
        <i32 as IntoArg>::spec_return_type() == ExprView::Symbol("System`Integer"@),
        <u8 as IntoArg>::spec_return_type() == ExprView::Symbol("System`Integer"@),
        <u16 as IntoArg>::spec_return_type() == ExprView::Symbol("System`Integer"@),
        <u32 as IntoArg>::spec_return_type() == ExprView::Symbol("System`Integer"@),
{
}

/// Booleans are passed and returned as ``"Boolean"``, strings (owned C strings or
/// text) as ``System`String``, data stores as ``"DataStore"``, and nothing is returned
/// as ``"Void"``: each such type has the same parameter and return type.
pub proof fn lemma_scalar_and_string_types()
    ensures
        <bool as FromArg>::spec_parameter_type() == ExprView::String("Boolean"@),
        <bool as IntoArg>::spec_return_type() == ExprView::String("Boolean"@),
        <String as FromArg>::spec_parameter_type() == ExprView::Symbol("System`String"@),
        <String as IntoArg>::spec_return_type() == ExprView::Symbol("System`String"@),
        <CString as FromArg>::spec_parameter_type() == ExprView::Symbol("System`String"@),
        <CString as IntoArg>::spec_return_type() == ExprView::Symbol("System`String"@),
        <DataStore as FromArg>::spec_parameter_type() == ExprView::String("DataStore"@),
        <DataStore as IntoArg>::spec_return_type() == ExprView::String("DataStore"@),
        <() as IntoArg>::spec_return_type() == ExprView::String("Void"@),
        <bool as FromArg>::is_parameter_type() && <mint as FromArg>::is_parameter_type()
            && <String as FromArg>::is_parameter_type() && <CString as FromArg>::is_parameter_type()
            && <DataStore as FromArg>::is_parameter_type(),
{
}

/// What each type is read from: a Boolean slot (any nonzero value is true), an
/// Integer slot, a UTF8String slot (as text only when its bytes are valid UTF-8), or
/// a numeric array, image or data store slot.
pub proof fn lemma_what_each_type_reads<T: NumericArrayType, U: ImageData>(arg: ArgView)
    ensures
        <bool as FromArg>::can_read(arg) <==> arg is Boolean,
        arg matches ArgView::Boolean(b) ==> <bool as FromArg>::spec_from_arg(arg) == (b != 0),
        <mint as FromArg>::can_read(arg) <==> arg is Integer,
        arg matches ArgView::Integer(i) ==> <mint as FromArg>::spec_from_arg(arg) == i,
        <CString as FromArg>::can_read(arg) <==> arg is Utf8String,
        arg matches ArgView::Utf8String(b) ==> <CString as FromArg>::spec_from_arg(arg) == b,
        <String as FromArg>::can_read(arg) <==> (arg matches ArgView::Utf8String(b) && valid_utf8(b)),
        arg matches ArgView::Utf8String(b) ==> <String as FromArg>::spec_from_arg(arg) == decode_utf8(b),
        <NumericArray<T> as FromArg>::can_read(arg) <==> arg is NumericArray,
        <BorrowedNumericArray<T> as FromArg>::can_read(arg) <==> arg is NumericArray,
        <Image<U> as FromArg>::can_read(arg) <==> arg is Image,
        <BorrowedImage<U> as FromArg>::can_read(arg) <==> arg is Image,
        <DataStore as FromArg>::can_read(arg) <==> arg is DataStore,
{
}

/// Writing a value replaces what the result slot held, except for `()`, which leaves
/// it as it was; `true` and `false` are written as 1 and 0.
pub proof fn lemma_what_each_type_writes(slot: ArgView, i: mint, b: Seq<u8>)
    ensures
        <() as IntoArg>::spec_into_arg((), slot) == slot,
        <bool as IntoArg>::spec_into_arg(true, slot) == ArgView::Boolean(1),
        <bool as IntoArg>::spec_into_arg(false, slot) == ArgView::Boolean(0),
        <mint as IntoArg>::spec_into_arg(i, slot) == ArgView::Integer(i),
        <CString as IntoArg>::spec_into_arg(b, slot) == ArgView::Utf8String(b),
{
}

/// The element types of numeric arrays are named by their signedness and width, and
/// the pixel types of images by their Wolfram Language names; an owned numeric array
/// of element type `T` is returned as ``LibraryDataType[NumericArray, "<name of T>"]``
/// and an image of pixel type `U` as ``LibraryDataType[Image | Image3D, "<name of U>"]``.
pub proof fn lemma_element_and_pixel_type_names<T: NumericArrayType, U: ImageData>()
    ensures
        <i8 as NumericArrayType>::spec_data_type().spec_name() == "Integer8"@,
        <i16 as NumericArrayType>::spec_data_type().spec_name() == "Integer16"@,
        <i32 as NumericArrayType>::spec_data_type().spec_name() == "Integer32"@,
        <i64 as NumericArrayType>::spec_data_type().spec_name() == "Integer64"@,
        <u8 as NumericArrayType>::spec_data_type().spec_name() == "UnsignedInteger8"@,
        <u16 as NumericArrayType>::spec_data_type().spec_name() == "UnsignedInteger16"@,
        <u32 as NumericArrayType>::spec_data_type().spec_name() == "UnsignedInteger32"@,
        <u64 as NumericArrayType>::spec_data_type().spec_name() == "UnsignedInteger64"@,
        <bool as ImageData>::spec_image_type().spec_name() == "Bit"@,
        <u8 as ImageData>::spec_image_type().spec_name() == "Byte"@,
        <u16 as ImageData>::spec_image_type().spec_name() == "Bit16"@,
        <NumericArray<T> as IntoArg>::spec_return_type() == normal2_view(
            "System`LibraryDataType"@,
            ExprView::Symbol("System`NumericArray"@),
            ExprView::String(T::spec_data_type().spec_name()),
        ),
        <NumericArray<()> as IntoArg>::spec_return_type() == ExprView::Symbol("System`NumericArray"@),
        <Image<U> as IntoArg>::spec_return_type() == normal2_view(
            "System`LibraryDataType"@,
            normal2_view(
                "System`Alternatives"@,
                ExprView::Symbol("System`Image"@),
                ExprView::Symbol("System`Image3D"@),
            ),
            ExprView::String(U::spec_image_type().spec_name()),
        ),
{
}

/// The text of an expression: a symbol by its name, a string in double quotes, an
/// integer in decimal, and `head[a, b, ...]` with the elements separated by `", "`.
pub proof fn lemma_rendering(name: Seq<char>, text: Seq<char>, i: int, h: ExprView, a: ExprView, b: ExprView)
    ensures
        render(ExprView::Symbol(name)) == name,
        render(ExprView::String(text)) == seq!['"'] + text + seq!['"'],
        render(ExprView::Integer(i)) == int_text(i),
        0 <= i < 10 ==> int_text(i).len() == 1 && int_text(i)[0] as int == '0' as int + i,
        i < 0 ==> int_text(i)[0] == '-',
        render(ExprView::Normal(Box::new(h), Seq::empty())) == render(h) + seq!['[', ']'],
        render(ExprView::Normal(Box::new(h), seq![a])) == render(h) + seq!['['] + render(a) + seq![']'],
        render(ExprView::Normal(Box::new(h), seq![a, b])) == render(h) + seq!['['] + render(a)
            + seq![',', ' '] + render(b) + seq![']'],
{
    assert(seq![a, b].drop_last() =~= seq![a]);
    assert(crate::expr::render_list(Seq::empty()) == Seq::<char>::empty());
    assert(render(h) + seq!['['] + Seq::<char>::empty() + seq![']'] =~= render(h) + seq!['[', ']']);
    assert(crate::expr::render_list(seq![a]) == render(a));
    assert(crate::expr::render_list(seq![a, b]) == crate::expr::render_list(seq![a]) + seq![',', ' ']
        + render(b));
    if 0 <= i < 10 {
        reveal_with_fuel(crate::expr::nat_text, 1);
    }
}

/// The position that [`CString::new`] reports is that of the first NUL byte.
pub proof fn lemma_first_nul(bytes: Seq<u8>)
    ensures
        first_nul(bytes) is Some <==> bytes.contains(0u8),
        first_nul(bytes) matches Some(p) ==> p < bytes.len() && bytes[p as int] == 0u8
            && forall|j: int| 0 <= j < p ==> bytes[j] != 0u8,
{
    if bytes.contains(0u8) {
        let k = choose|k: int| 0 <= k < bytes.len() && bytes[k] == 0u8;
        lemma_some_first_nul(bytes, k);
    }
}

proof fn lemma_some_first_nul(bytes: Seq<u8>, k: int)
    requires
        0 <= k < bytes.len(),
        bytes[k] == 0u8,
    ensures
        exists|p: nat| p < bytes.len() && bytes[p as int] == 0u8 && forall|j: int|
            0 <= j < p ==> bytes[j] != 0u8,
    decreases k,
{
    if exists|j: int| 0 <= j < k && bytes[j] == 0u8 {
        let j = choose|j: int| 0 <= j < k && bytes[j] == 0u8;
        lemma_some_first_nul(bytes, j);
    } else {
        assert(bytes[k as nat as int] == 0u8);
    }
}

/// Reading a string slot as an owned or as a borrowed value gives the same bytes,
/// and the same text.
pub proof fn lemma_owned_and_borrowed_reads_agree(arg: ArgView)
    ensures
        <CString as FromArg>::can_read(arg) == <&CString as FromArg>::can_read(arg),
        <CString as FromArg>::spec_from_arg(arg) == <&CString as FromArg>::spec_from_arg(arg),
        <String as FromArg>::can_read(arg) == <&str as FromArg>::can_read(arg),
        <String as FromArg>::spec_from_arg(arg) == <&str as FromArg>::spec_from_arg(arg),
{
}

/// The UTF-8 encoding of one scalar holds a zero byte exactly when the scalar is
/// zero: the bytes of wider encodings all have their high bit set.
proof fn lemma_encode_scalar_nul(v: u32)
    requires
        is_scalar(v),
    ensures
        encode_scalar(v).contains(0u8) <==> v == 0,
{
    let e = encode_scalar(v);
    if has_width_1_encoding(v) {
        assert(leading_byte_width_1(v) == 0 <==> v == 0) by (bit_vector)
            requires
                v <= 0x7F,
        ;
        assert(e[0] == leading_byte_width_1(v));
        if e.contains(0u8) {
            let i = choose|i: int| 0 <= i < e.len() && e[i] == 0u8;
            assert(i == 0);
        }
    } else {
        assert(leading_byte_width_2(v) != 0) by (bit_vector);
        assert(leading_byte_width_3(v) != 0) by (bit_vector);
        assert(leading_byte_width_4(v) != 0) by (bit_vector);
        assert(last_continuation_byte(v) != 0) by (bit_vector);
        assert(second_last_continuation_byte(v) != 0) by (bit_vector);
        assert(third_last_continuation_byte(v) != 0) by (bit_vector);
        assert forall|i: int| 0 <= i < e.len() implies e[i] != 0u8 by {}
    }
}

/// The UTF-8 encoding of a text holds a zero byte exactly when the text holds the
/// NUL character.
proof fn lemma_encode_utf8_nul(chars: Seq<char>)
    ensures
        encode_utf8(chars).contains(0u8) <==> chars.contains('\0'),
    decreases chars.len(),
{
    if chars.len() > 0 {
        let head = encode_scalar(chars[0] as u32);
        let rest = chars.drop_first();
        lemma_encode_utf8_nul(rest);
        char_is_scalar(chars[0]);
        lemma_encode_scalar_nul(chars[0] as u32);
        let all = encode_utf8(chars);
        assert(all == head + encode_utf8(rest));
        if all.contains(0u8) {
            let i = choose|i: int| 0 <= i < all.len() && all[i] == 0u8;
            if i < head.len() {
                assert(head[i] == 0u8);
                char_u32_cast(chars[0], chars[0] as u32);
                char_u32_cast('\0', 0u32);
                assert(chars[0] == '\0');
            } else {
                assert(encode_utf8(rest)[i - head.len()] == 0u8);
                let j = choose|j: int| 0 <= j < rest.len() && rest[j] == '\0';
                assert(chars[j + 1] == '\0');
            }
        }
        if chars.contains('\0') {
            let j = choose|j: int| 0 <= j < chars.len() && chars[j] == '\0';
            if j == 0 {
                let i = choose|i: int| 0 <= i < head.len() && head[i] == 0u8;
                assert(all[i] == 0u8);
            } else {
                assert(rest[j - 1] == '\0');
                let i = choose|i: int| 0 <= i < encode_utf8(rest).len() && encode_utf8(rest)[i] == 0u8;
                assert(all[head.len() + i] == 0u8);
            }
        }
    }
}

/// A string can be returned exactly when it holds no NUL character.
pub proof fn lemma_string_can_return(v: Seq<char>)
    ensures
        <String as IntoArg>::can_return(v) <==> !v.contains('\0'),
{
    lemma_encode_utf8_nul(v);
}

} // verus!
