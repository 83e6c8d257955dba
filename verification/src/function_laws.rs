//! Laws of the native and WSTP function traits: what calling a function does with
//! its argument and result slots, and what its signature lists.

use crate::args::{
    ExprsToExpr, ExprsToNull, FromArg, IntoArg, NativeFunction, RawArguments, WstpFunction,
};
use crate::expr::{list_elements, Expr, ExprView};
use crate::sys::{ArgView, MArgument};
use vstd::prelude::*;

verus! {

/// Calling a function without parameters calls it once and writes its result to the
/// result slot as `into_arg` writes it; its signature lists no parameter types, then the
/// return type.
pub proof fn lemma_native_function_0<'a, R: IntoArg, F: Fn() -> R>(
    f: F,
    args: &'a [MArgument],
    before: ArgView,
    after: ArgView,
)
    ensures
        <F as NativeFunction<'a, ()>>::spec_takes(&f, args@.len()) <==> args@.len() == 0,
        <F as NativeFunction<'a, ()>>::spec_call(&f, args, before, after) ==> exists|r: R|
            {
                &&& #[trigger] call_ensures(f, (), r)
                &&& after == R::spec_into_arg(r@, before)
            },
        <F as NativeFunction<'a, ()>>::spec_reads(&f, args) <==> args@.len() == 0,
        (<F as NativeFunction<'a, ()>>::spec_reads(&f, args)
            && call_requires(f, ())
            && (forall|r: R| #[trigger] call_ensures(f, (), r) ==> R::can_return(r@)))
            ==> <F as NativeFunction<'a, ()>>::can_call(&f, args),
        <F as NativeFunction<'a, ()>>::has_signature(&f),
        <F as NativeFunction<'a, ()>>::spec_signature(&f) == Ok::<(Seq<ExprView>, ExprView), Seq<char>>(
            (Seq::<ExprView>::empty(), R::spec_return_type()),
        ),
{
}

/// A function that takes the raw slots is called on the argument slots and what the
/// result slot held, and what it returns is what the result slot then holds; it takes
/// any number of arguments, and its parameter types are unknown.
pub proof fn lemma_native_function_raw<'a, F: Fn(&'a [MArgument], MArgument) -> MArgument>(
    f: F,
    args: &'a [MArgument],
    before: ArgView,
    after: ArgView,
)
    ensures
        <F as NativeFunction<'a, RawArguments>>::spec_takes(&f, args@.len()),
        <F as NativeFunction<'a, RawArguments>>::spec_reads(&f, args),
        <F as NativeFunction<'a, RawArguments>>::spec_call(&f, args, before, after) ==> exists|
            prior: MArgument,
            written: MArgument,
        |
            {
                &&& prior@ == before
                &&& written@ == after
                &&& #[trigger] call_ensures(f, (args, prior), written)
            },
        (forall|prior: MArgument| #[trigger] call_requires(f, (args, prior)))
            ==> <F as NativeFunction<'a, RawArguments>>::can_call(&f, args),
        <F as NativeFunction<'a, RawArguments>>::spec_signature(&f) is Err,
{
}

/// A WSTP function that returns an expression is called on the argument list exactly
/// as given, and its reply is what it returned.
pub proof fn lemma_wstp_function_reply<F: Fn(Vec<Expr>) -> Expr>(f: F, args: Vec<Expr>, reply: Expr)
    ensures
        <F as WstpFunction<ExprsToExpr>>::spec_reply(&f, args, reply) ==> call_ensures(
            f,
            (args,),
            reply,
        ),
        (forall|a: Vec<Expr>| #[trigger] call_requires(f, (a,)))
            ==> <F as WstpFunction<ExprsToExpr>>::can_call(&f),
{
}

/// A WSTP function that returns nothing is called on the argument list exactly as
/// given, and the reply is the symbol ``System`Null``.
pub proof fn lemma_wstp_procedure_reply<F: Fn(Vec<Expr>)>(f: F, args: Vec<Expr>, reply: Expr)
    ensures
        <F as WstpFunction<ExprsToNull>>::spec_reply(&f, args, reply) ==> call_ensures(
            f,
            (args,),
            (),
        ) && reply@ == ExprView::Symbol("System`Null"@),
        (forall|a: Vec<Expr>| #[trigger] call_requires(f, (a,)))
            ==> <F as WstpFunction<ExprsToNull>>::can_call(&f),
{
}

/// Every normal expression whose head is the symbol ``System`List`` is an argument
/// list, the empty one included, and its elements are the arguments, in order.
pub proof fn lemma_list_is_argument_list(contents: Seq<ExprView>)
    ensures
        list_elements(ExprView::Normal(Box::new(ExprView::Symbol("System`List"@)), contents))
            == Some(contents),
{
}

/// Calling a function of 1 parameter reads each argument slot as its parameter, calls the
/// function on those values, and writes its result to the result slot as `into_arg`
/// writes it; its signature lists the parameter types in parameter order, then the
/// return type.
pub proof fn lemma_native_function_1<'a, A1: FromArg<'a>, R: IntoArg, F: Fn(A1) -> R>(
    f: F,
    args: &'a [MArgument],
    before: ArgView,
    after: ArgView,
)
    ensures
        <F as NativeFunction<'a, (A1,)>>::spec_takes(&f, args@.len()) <==> args@.len() == 1,
        <F as NativeFunction<'a, (A1,)>>::spec_call(&f, args, before, after) ==> exists|a1: A1, r: R|
            {
                &&& a1@ == A1::spec_from_arg(args@[0]@)
                &&& #[trigger] call_ensures(f, (a1,), r)
                &&& after == R::spec_into_arg(r@, before)
            },
        <F as NativeFunction<'a, (A1,)>>::spec_reads(&f, args) <==> (args@.len() == 1
            && A1::can_read(args@[0]@)),
        (<F as NativeFunction<'a, (A1,)>>::spec_reads(&f, args)
            && (forall|a1: A1| #[trigger] call_requires(f, (a1,)))
            && (forall|a1: A1, r: R| #[trigger] call_ensures(f, (a1,), r) ==> R::can_return(r@)))
            ==> <F as NativeFunction<'a, (A1,)>>::can_call(&f, args),
        <F as NativeFunction<'a, (A1,)>>::has_signature(&f) <==> (A1::is_parameter_type()),
        <F as NativeFunction<'a, (A1,)>>::spec_signature(&f) is Ok,
        <F as NativeFunction<'a, (A1,)>>::spec_signature(&f)->Ok_0.0.len() == 1,
        <F as NativeFunction<'a, (A1,)>>::spec_signature(&f)->Ok_0.0[0] == A1::spec_parameter_type(),
        <F as NativeFunction<'a, (A1,)>>::spec_signature(&f)->Ok_0.1 == R::spec_return_type(),
{
}

/// Calling a function of 2 parameters reads each argument slot as its parameter, calls the
/// function on those values, and writes its result to the result slot as `into_arg`
/// writes it; its signature lists the parameter types in parameter order, then the
/// return type.
pub proof fn lemma_native_function_2<'a, A1: FromArg<'a>, A2: FromArg<'a>, R: IntoArg, F: Fn(A1, A2) -> R>(
    f: F,
    args: &'a [MArgument],
    before: ArgView,
    after: ArgView,
)
    ensures
        <F as NativeFunction<'a, (A1, A2)>>::spec_takes(&f, args@.len()) <==> args@.len() == 2,
        <F as NativeFunction<'a, (A1, A2)>>::spec_call(&f, args, before, after) ==> exists|a1: A1, a2: A2, r: R|
            {
                &&& a1@ == A1::spec_from_arg(args@[0]@)
                &&& a2@ == A2::spec_from_arg(args@[1]@)
                &&& #[trigger] call_ensures(f, (a1, a2), r)
                &&& after == R::spec_into_arg(r@, before)
            },
        <F as NativeFunction<'a, (A1, A2)>>::spec_reads(&f, args) <==> (args@.len() == 2
            && A1::can_read(args@[0]@)
            && A2::can_read(args@[1]@)),
        (<F as NativeFunction<'a, (A1, A2)>>::spec_reads(&f, args)
            && (forall|a1: A1, a2: A2| #[trigger] call_requires(f, (a1, a2)))
            && (forall|a1: A1, a2: A2, r: R| #[trigger] call_ensures(f, (a1, a2), r) ==> R::can_return(r@)))
            ==> <F as NativeFunction<'a, (A1, A2)>>::can_call(&f, args),
        <F as NativeFunction<'a, (A1, A2)>>::has_signature(&f) <==> (A1::is_parameter_type() && A2::is_parameter_type()),
        <F as NativeFunction<'a, (A1, A2)>>::spec_signature(&f) is Ok,
        <F as NativeFunction<'a, (A1, A2)>>::spec_signature(&f)->Ok_0.0.len() == 2,
        <F as NativeFunction<'a, (A1, A2)>>::spec_signature(&f)->Ok_0.0[0] == A1::spec_parameter_type(),
        <F as NativeFunction<'a, (A1, A2)>>::spec_signature(&f)->Ok_0.0[1] == A2::spec_parameter_type(),
        <F as NativeFunction<'a, (A1, A2)>>::spec_signature(&f)->Ok_0.1 == R::spec_return_type(),
{
}

/// Calling a function of 3 parameters reads each argument slot as its parameter, calls the
/// function on those values, and writes its result to the result slot as `into_arg`
/// writes it; its signature lists the parameter types in parameter order, then the
/// return type.
pub proof fn lemma_native_function_3<'a, A1: FromArg<'a>, A2: FromArg<'a>, A3: FromArg<'a>, R: IntoArg, F: Fn(A1, A2, A3) -> R>(
    f: F,
    args: &'a [MArgument],
    before: ArgView,
    after: ArgView,
)
    ensures
        <F as NativeFunction<'a, (A1, A2, A3)>>::spec_takes(&f, args@.len()) <==> args@.len() == 3,
        <F as NativeFunction<'a, (A1, A2, A3)>>::spec_call(&f, args, before, after) ==> exists|a1: A1, a2: A2, a3: A3, r: R|
            {
                &&& a1@ == A1::spec_from_arg(args@[0]@)
                &&& a2@ == A2::spec_from_arg(args@[1]@)
                &&& a3@ == A3::spec_from_arg(args@[2]@)
                &&& #[trigger] call_ensures(f, (a1, a2, a3), r)
                &&& after == R::spec_into_arg(r@, before)
            },
        <F as NativeFunction<'a, (A1, A2, A3)>>::spec_reads(&f, args) <==> (args@.len() == 3
            && A1::can_read(args@[0]@)
            && A2::can_read(args@[1]@)
            && A3::can_read(args@[2]@)),
        (<F as NativeFunction<'a, (A1, A2, A3)>>::spec_reads(&f, args)
            && (forall|a1: A1, a2: A2, a3: A3| #[trigger] call_requires(f, (a1, a2, a3)))
            && (forall|a1: A1, a2: A2, a3: A3, r: R| #[trigger] call_ensures(f, (a1, a2, a3), r) ==> R::can_return(r@)))
            ==> <F as NativeFunction<'a, (A1, A2, A3)>>::can_call(&f, args),
        <F as NativeFunction<'a, (A1, A2, A3)>>::has_signature(&f) <==> (A1::is_parameter_type() && A2::is_parameter_type() && A3::is_parameter_type()),
        <F as NativeFunction<'a, (A1, A2, A3)>>::spec_signature(&f) is Ok,
        <F as NativeFunction<'a, (A1, A2, A3)>>::spec_signature(&f)->Ok_0.0.len() == 3,
        <F as NativeFunction<'a, (A1, A2, A3)>>::spec_signature(&f)->Ok_0.0[0] == A1::spec_parameter_type(),
        <F as NativeFunction<'a, (A1, A2, A3)>>::spec_signature(&f)->Ok_0.0[1] == A2::spec_parameter_type(),
        <F as NativeFunction<'a, (A1, A2, A3)>>::spec_signature(&f)->Ok_0.0[2] == A3::spec_parameter_type(),
        <F as NativeFunction<'a, (A1, A2, A3)>>::spec_signature(&f)->Ok_0.1 == R::spec_return_type(),
{
}

/// Calling a function of 4 parameters reads each argument slot as its parameter, calls the
/// function on those values, and writes its result to the result slot as `into_arg`
/// writes it; its signature lists the parameter types in parameter order, then the
/// return type.
pub proof fn lemma_native_function_4<'a, A1: FromArg<'a>, A2: FromArg<'a>, A3: FromArg<'a>, A4: FromArg<'a>, R: IntoArg, F: Fn(A1, A2, A3, A4) -> R>(
    f: F,
    args: &'a [MArgument],
    before: ArgView,
    after: ArgView,
)
    ensures
        <F as NativeFunction<'a, (A1, A2, A3, A4)>>::spec_takes(&f, args@.len()) <==> args@.len() == 4,
        <F as NativeFunction<'a, (A1, A2, A3, A4)>>::spec_call(&f, args, before, after) ==> exists|a1: A1, a2: A2, a3: A3, a4: A4, r: R|
            {
                &&& a1@ == A1::spec_from_arg(args@[0]@)
                &&& a2@ == A2::spec_from_arg(args@[1]@)
                &&& a3@ == A3::spec_from_arg(args@[2]@)
                &&& a4@ == A4::spec_from_arg(args@[3]@)
                &&& #[trigger] call_ensures(f, (a1, a2, a3, a4), r)
                &&& after == R::spec_into_arg(r@, before)
            },
        <F as NativeFunction<'a, (A1, A2, A3, A4)>>::spec_reads(&f, args) <==> (args@.len() == 4
            && A1::can_read(args@[0]@)
            && A2::can_read(args@[1]@)
            && A3::can_read(args@[2]@)
            && A4::can_read(args@[3]@)),
        (<F as NativeFunction<'a, (A1, A2, A3, A4)>>::spec_reads(&f, args)
            && (forall|a1: A1, a2: A2, a3: A3, a4: A4| #[trigger] call_requires(f, (a1, a2, a3, a4)))
            && (forall|a1: A1, a2: A2, a3: A3, a4: A4, r: R| #[trigger] call_ensures(f, (a1, a2, a3, a4), r) ==> R::can_return(r@)))
            ==> <F as NativeFunction<'a, (A1, A2, A3, A4)>>::can_call(&f, args),
        <F as NativeFunction<'a, (A1, A2, A3, A4)>>::has_signature(&f) <==> (A1::is_parameter_type() && A2::is_parameter_type() && A3::is_parameter_type() && A4::is_parameter_type()),
        <F as NativeFunction<'a, (A1, A2, A3, A4)>>::spec_signature(&f) is Ok,
        <F as NativeFunction<'a, (A1, A2, A3, A4)>>::spec_signature(&f)->Ok_0.0.len() == 4,
        <F as NativeFunction<'a, (A1, A2, A3, A4)>>::spec_signature(&f)->Ok_0.0[0] == A1::spec_parameter_type(),
        <F as NativeFunction<'a, (A1, A2, A3, A4)>>::spec_signature(&f)->Ok_0.0[1] == A2::spec_parameter_type(),
        <F as NativeFunction<'a, (A1, A2, A3, A4)>>::spec_signature(&f)->Ok_0.0[2] == A3::spec_parameter_type(),
        <F as NativeFunction<'a, (A1, A2, A3, A4)>>::spec_signature(&f)->Ok_0.0[3] == A4::spec_parameter_type(),
        <F as NativeFunction<'a, (A1, A2, A3, A4)>>::spec_signature(&f)->Ok_0.1 == R::spec_return_type(),
{
}

/// Calling a function of 5 parameters reads each argument slot as its parameter, calls the
/// function on those values, and writes its result to the result slot as `into_arg`
/// writes it; its signature lists the parameter types in parameter order, then the
/// return type.
pub proof fn lemma_native_function_5<'a, A1: FromArg<'a>, A2: FromArg<'a>, A3: FromArg<'a>, A4: FromArg<'a>, A5: FromArg<'a>, R: IntoArg, F: Fn(A1, A2, A3, A4, A5) -> R>(
    f: F,
    args: &'a [MArgument],
    before: ArgView,
    after: ArgView,
)
    ensures
        <F as NativeFunction<'a, (A1, A2, A3, A4, A5)>>::spec_takes(&f, args@.len()) <==> args@.len() == 5,
        <F as NativeFunction<'a, (A1, A2, A3, A4, A5)>>::spec_call(&f, args, before, after) ==> exists|a1: A1, a2: A2, a3: A3, a4: A4, a5: A5, r: R|
            {
                &&& a1@ == A1::spec_from_arg(args@[0]@)
                &&& a2@ == A2::spec_from_arg(args@[1]@)
                &&& a3@ == A3::spec_from_arg(args@[2]@)
                &&& a4@ == A4::spec_from_arg(args@[3]@)
                &&& a5@ == A5::spec_from_arg(args@[4]@)
                &&& #[trigger] call_ensures(f, (a1, a2, a3, a4, a5), r)
                &&& after == R::spec_into_arg(r@, before)
            },
        <F as NativeFunction<'a, (A1, A2, A3, A4, A5)>>::spec_reads(&f, args) <==> (args@.len() == 5
            && A1::can_read(args@[0]@)
            && A2::can_read(args@[1]@)
            && A3::can_read(args@[2]@)
            && A4::can_read(args@[3]@)
            && A5::can_read(args@[4]@)),
        (<F as NativeFunction<'a, (A1, A2, A3, A4, A5)>>::spec_reads(&f, args)
            && (forall|a1: A1, a2: A2, a3: A3, a4: A4, a5: A5| #[trigger] call_requires(f, (a1, a2, a3, a4, a5)))
            && (forall|a1: A1, a2: A2, a3: A3, a4: A4, a5: A5, r: R| #[trigger] call_ensures(f, (a1, a2, a3, a4, a5), r) ==> R::can_return(r@)))
            ==> <F as NativeFunction<'a, (A1, A2, A3, A4, A5)>>::can_call(&f, args),
        <F as NativeFunction<'a, (A1, A2, A3, A4, A5)>>::has_signature(&f) <==> (A1::is_parameter_type() && A2::is_parameter_type() && A3::is_parameter_type() && A4::is_parameter_type() && A5::is_parameter_type()),
        <F as NativeFunction<'a, (A1, A2, A3, A4, A5)>>::spec_signature(&f) is Ok,
        <F as NativeFunction<'a, (A1, A2, A3, A4, A5)>>::spec_signature(&f)->Ok_0.0.len() == 5,
        <F as NativeFunction<'a, (A1, A2, A3, A4, A5)>>::spec_signature(&f)->Ok_0.0[0] == A1::spec_parameter_type(),
        <F as NativeFunction<'a, (A1, A2, A3, A4, A5)>>::spec_signature(&f)->Ok_0.0[1] == A2::spec_parameter_type(),
        <F as NativeFunction<'a, (A1, A2, A3, A4, A5)>>::spec_signature(&f)->Ok_0.0[2] == A3::spec_parameter_type(),
        <F as NativeFunction<'a, (A1, A2, A3, A4, A5)>>::spec_signature(&f)->Ok_0.0[3] == A4::spec_parameter_type(),
        <F as NativeFunction<'a, (A1, A2, A3, A4, A5)>>::spec_signature(&f)->Ok_0.0[4] == A5::spec_parameter_type(),
        <F as NativeFunction<'a, (A1, A2, A3, A4, A5)>>::spec_signature(&f)->Ok_0.1 == R::spec_return_type(),
{
}

/// Calling a function of 6 parameters reads each argument slot as its parameter, calls the
/// function on those values, and writes its result to the result slot as `into_arg`
/// writes it; its signature lists the parameter types in parameter order, then the
/// return type.
pub proof fn lemma_native_function_6<'a, A1: FromArg<'a>, A2: FromArg<'a>, A3: FromArg<'a>, A4: FromArg<'a>, A5: FromArg<'a>, A6: FromArg<'a>, R: IntoArg, F: Fn(A1, A2, A3, A4, A5, A6) -> R>(
    f: F,
    args: &'a [MArgument],
    before: ArgView,
    after: ArgView,
)
    ensures
        <F as NativeFunction<'a, (A1, A2, A3, A4, A5, A6)>>::spec_takes(&f, args@.len()) <==> args@.len() == 6,
        <F as NativeFunction<'a, (A1, A2, A3, A4, A5, A6)>>::spec_call(&f, args, before, after) ==> exists|a1: A1, a2: A2, a3: A3, a4: A4, a5: A5, a6: A6, r: R|
            {
                &&& a1@ == A1::spec_from_arg(args@[0]@)
                &&& a2@ == A2::spec_from_arg(args@[1]@)
                &&& a3@ == A3::spec_from_arg(args@[2]@)
                &&& a4@ == A4::spec_from_arg(args@[3]@)
                &&& a5@ == A5::spec_from_arg(args@[4]@)
                &&& a6@ == A6::spec_from_arg(args@[5]@)
                &&& #[trigger] call_ensures(f, (a1, a2, a3, a4, a5, a6), r)
                &&& after == R::spec_into_arg(r@, before)
            },
        <F as NativeFunction<'a, (A1, A2, A3, A4, A5, A6)>>::spec_reads(&f, args) <==> (args@.len() == 6
            && A1::can_read(args@[0]@)
            && A2::can_read(args@[1]@)
            && A3::can_read(args@[2]@)
            && A4::can_read(args@[3]@)
            && A5::can_read(args@[4]@)
            && A6::can_read(args@[5]@)),
        (<F as NativeFunction<'a, (A1, A2, A3, A4, A5, A6)>>::spec_reads(&f, args)
            && (forall|a1: A1, a2: A2, a3: A3, a4: A4, a5: A5, a6: A6| #[trigger] call_requires(f, (a1, a2, a3, a4, a5, a6)))
            && (forall|a1: A1, a2: A2, a3: A3, a4: A4, a5: A5, a6: A6, r: R| #[trigger] call_ensures(f, (a1, a2, a3, a4, a5, a6), r) ==> R::can_return(r@)))
            ==> <F as NativeFunction<'a, (A1, A2, A3, A4, A5, A6)>>::can_call(&f, args),
        <F as NativeFunction<'a, (A1, A2, A3, A4, A5, A6)>>::has_signature(&f) <==> (A1::is_parameter_type() && A2::is_parameter_type() && A3::is_parameter_type() && A4::is_parameter_type() && A5::is_parameter_type() && A6::is_parameter_type()),
        <F as NativeFunction<'a, (A1, A2, A3, A4, A5, A6)>>::spec_signature(&f) is Ok,
        <F as NativeFunction<'a, (A1, A2, A3, A4, A5, A6)>>::spec_signature(&f)->Ok_0.0.len() == 6,
        <F as NativeFunction<'a, (A1, A2, A3, A4, A5, A6)>>::spec_signature(&f)->Ok_0.0[0] == A1::spec_parameter_type(),
        <F as NativeFunction<'a, (A1, A2, A3, A4, A5, A6)>>::spec_signature(&f)->Ok_0.0[1] == A2::spec_parameter_type(),
        <F as NativeFunction<'a, (A1, A2, A3, A4, A5, A6)>>::spec_signature(&f)->Ok_0.0[2] == A3::spec_parameter_type(),
        <F as NativeFunction<'a, (A1, A2, A3, A4, A5, A6)>>::spec_signature(&f)->Ok_0.0[3] == A4::spec_parameter_type(),
        <F as NativeFunction<'a, (A1, A2, A3, A4, A5, A6)>>::spec_signature(&f)->Ok_0.0[4] == A5::spec_parameter_type(),
        <F as NativeFunction<'a, (A1, A2, A3, A4, A5, A6)>>::spec_signature(&f)->Ok_0.0[5] == A6::spec_parameter_type(),
        <F as NativeFunction<'a, (A1, A2, A3, A4, A5, A6)>>::spec_signature(&f)->Ok_0.1 == R::spec_return_type(),
{
}

/// Calling a function of 7 parameters reads each argument slot as its parameter, calls the
/// function on those values, and writes its result to the result slot as `into_arg`
/// writes it; its signature lists the parameter types in parameter order, then the
/// return type.
pub proof fn lemma_native_function_7<'a, A1: FromArg<'a>, A2: FromArg<'a>, A3: FromArg<'a>, A4: FromArg<'a>, A5: FromArg<'a>, A6: FromArg<'a>, A7: FromArg<'a>, R: IntoArg, F: Fn(A1, A2, A3, A4, A5, A6, A7) -> R>(
    f: F,
    args: &'a [MArgument],
    before: ArgView,
    after: ArgView,
)
    ensures
        <F as NativeFunction<'a, (A1, A2, A3, A4, A5, A6, A7)>>::spec_takes(&f, args@.len()) <==> args@.len() == 7,
        <F as NativeFunction<'a, (A1, A2, A3, A4, A5, A6, A7)>>::spec_call(&f, args, before, after) ==> exists|a1: A1, a2: A2, a3: A3, a4: A4, a5: A5, a6: A6, a7: A7, r: R|
            {
                &&& a1@ == A1::spec_from_arg(args@[0]@)
                &&& a2@ == A2::spec_from_arg(args@[1]@)
                &&& a3@ == A3::spec_from_arg(args@[2]@)
                &&& a4@ == A4::spec_from_arg(args@[3]@)
                &&& a5@ == A5::spec_from_arg(args@[4]@)
                &&& a6@ == A6::spec_from_arg(args@[5]@)
                &&& a7@ == A7::spec_from_arg(args@[6]@)
                &&& #[trigger] call_ensures(f, (a1, a2, a3, a4, a5, a6, a7), r)
                &&& after == R::spec_into_arg(r@, before)
            },
        <F as NativeFunction<'a, (A1, A2, A3, A4, A5, A6, A7)>>::spec_reads(&f, args) <==> (args@.len() == 7
            && A1::can_read(args@[0]@)
            && A2::can_read(args@[1]@)
            && A3::can_read(args@[2]@)
            && A4::can_read(args@[3]@)
            && A5::can_read(args@[4]@)
            && A6::can_read(args@[5]@)
            && A7::can_read(args@[6]@)),
        (<F as NativeFunction<'a, (A1, A2, A3, A4, A5, A6, A7)>>::spec_reads(&f, args)
            && (forall|a1: A1, a2: A2, a3: A3, a4: A4, a5: A5, a6: A6, a7: A7| #[trigger] call_requires(f, (a1, a2, a3, a4, a5, a6, a7)))
            && (forall|a1: A1, a2: A2, a3: A3, a4: A4, a5: A5, a6: A6, a7: A7, r: R| #[trigger] call_ensures(f, (a1, a2, a3, a4, a5, a6, a7), r) ==> R::can_return(r@)))
            ==> <F as NativeFunction<'a, (A1, A2, A3, A4, A5, A6, A7)>>::can_call(&f, args),
        <F as NativeFunction<'a, (A1, A2, A3, A4, A5, A6, A7)>>::has_signature(&f) <==> (A1::is_parameter_type() && A2::is_parameter_type() && A3::is_parameter_type() && A4::is_parameter_type() && A5::is_parameter_type() && A6::is_parameter_type() && A7::is_parameter_type()),
        <F as NativeFunction<'a, (A1, A2, A3, A4, A5, A6, A7)>>::spec_signature(&f) is Ok,
        <F as NativeFunction<'a, (A1, A2, A3, A4, A5, A6, A7)>>::spec_signature(&f)->Ok_0.0.len() == 7,
        <F as NativeFunction<'a, (A1, A2, A3, A4, A5, A6, A7)>>::spec_signature(&f)->Ok_0.0[0] == A1::spec_parameter_type(),
        <F as NativeFunction<'a, (A1, A2, A3, A4, A5, A6, A7)>>::spec_signature(&f)->Ok_0.0[1] == A2::spec_parameter_type(),
        <F as NativeFunction<'a, (A1, A2, A3, A4, A5, A6, A7)>>::spec_signature(&f)->Ok_0.0[2] == A3::spec_parameter_type(),
        <F as NativeFunction<'a, (A1, A2, A3, A4, A5, A6, A7)>>::spec_signature(&f)->Ok_0.0[3] == A4::spec_parameter_type(),
        <F as NativeFunction<'a, (A1, A2, A3, A4, A5, A6, A7)>>::spec_signature(&f)->Ok_0.0[4] == A5::spec_parameter_type(),
        <F as NativeFunction<'a, (A1, A2, A3, A4, A5, A6, A7)>>::spec_signature(&f)->Ok_0.0[5] == A6::spec_parameter_type(),
        <F as NativeFunction<'a, (A1, A2, A3, A4, A5, A6, A7)>>::spec_signature(&f)->Ok_0.0[6] == A7::spec_parameter_type(),
        <F as NativeFunction<'a, (A1, A2, A3, A4, A5, A6, A7)>>::spec_signature(&f)->Ok_0.1 == R::spec_return_type(),
{
}

/// Calling a function of 8 parameters reads each argument slot as its parameter, calls the
/// function on those values, and writes its result to the result slot as `into_arg`
/// writes it; its signature lists the parameter types in parameter order, then the
/// return type.
pub proof fn lemma_native_function_8<'a, A1: FromArg<'a>, A2: FromArg<'a>, A3: FromArg<'a>, A4: FromArg<'a>, A5: FromArg<'a>, A6: FromArg<'a>, A7: FromArg<'a>, A8: FromArg<'a>, R: IntoArg, F: Fn(A1, A2, A3, A4, A5, A6, A7, A8) -> R>(
    f: F,
    args: &'a [MArgument],
    before: ArgView,
    after: ArgView,
)
    ensures
        <F as NativeFunction<'a, (A1, A2, A3, A4, A5, A6, A7, A8)>>::spec_takes(&f, args@.len()) <==> args@.len() == 8,
        <F as NativeFunction<'a, (A1, A2, A3, A4, A5, A6, A7, A8)>>::spec_call(&f, args, before, after) ==> exists|a1: A1, a2: A2, a3: A3, a4: A4, a5: A5, a6: A6, a7: A7, a8: A8, r: R|
            {
                &&& a1@ == A1::spec_from_arg(args@[0]@)
                &&& a2@ == A2::spec_from_arg(args@[1]@)
                &&& a3@ == A3::spec_from_arg(args@[2]@)
                &&& a4@ == A4::spec_from_arg(args@[3]@)
                &&& a5@ == A5::spec_from_arg(args@[4]@)
                &&& a6@ == A6::spec_from_arg(args@[5]@)
                &&& a7@ == A7::spec_from_arg(args@[6]@)
                &&& a8@ == A8::spec_from_arg(args@[7]@)
                &&& #[trigger] call_ensures(f, (a1, a2, a3, a4, a5, a6, a7, a8), r)
                &&& after == R::spec_into_arg(r@, before)
            },
        <F as NativeFunction<'a, (A1, A2, A3, A4, A5, A6, A7, A8)>>::spec_reads(&f, args) <==> (args@.len() == 8
            && A1::can_read(args@[0]@)
            && A2::can_read(args@[1]@)
            && A3::can_read(args@[2]@)
            && A4::can_read(args@[3]@)
            && A5::can_read(args@[4]@)
            && A6::can_read(args@[5]@)
            && A7::can_read(args@[6]@)
            && A8::can_read(args@[7]@)),
        (<F as NativeFunction<'a, (A1, A2, A3, A4, A5, A6, A7, A8)>>::spec_reads(&f, args)
            && (forall|a1: A1, a2: A2, a3: A3, a4: A4, a5: A5, a6: A6, a7: A7, a8: A8| #[trigger] call_requires(f, (a1, a2, a3, a4, a5, a6, a7, a8)))
            && (forall|a1: A1, a2: A2, a3: A3, a4: A4, a5: A5, a6: A6, a7: A7, a8: A8, r: R| #[trigger] call_ensures(f, (a1, a2, a3, a4, a5, a6, a7, a8), r) ==> R::can_return(r@)))
            ==> <F as NativeFunction<'a, (A1, A2, A3, A4, A5, A6, A7, A8)>>::can_call(&f, args),
        <F as NativeFunction<'a, (A1, A2, A3, A4, A5, A6, A7, A8)>>::has_signature(&f) <==> (A1::is_parameter_type() && A2::is_parameter_type() && A3::is_parameter_type() && A4::is_parameter_type() && A5::is_parameter_type() && A6::is_parameter_type() && A7::is_parameter_type() && A8::is_parameter_type()),
        <F as NativeFunction<'a, (A1, A2, A3, A4, A5, A6, A7, A8)>>::spec_signature(&f) is Ok,
        <F as NativeFunction<'a, (A1, A2, A3, A4, A5, A6, A7, A8)>>::spec_signature(&f)->Ok_0.0.len() == 8,
        <F as NativeFunction<'a, (A1, A2, A3, A4, A5, A6, A7, A8)>>::spec_signature(&f)->Ok_0.0[0] == A1::spec_parameter_type(),
        <F as NativeFunction<'a, (A1, A2, A3, A4, A5, A6, A7, A8)>>::spec_signature(&f)->Ok_0.0[1] == A2::spec_parameter_type(),
        <F as NativeFunction<'a, (A1, A2, A3, A4, A5, A6, A7, A8)>>::spec_signature(&f)->Ok_0.0[2] == A3::spec_parameter_type(),
        <F as NativeFunction<'a, (A1, A2, A3, A4, A5, A6, A7, A8)>>::spec_signature(&f)->Ok_0.0[3] == A4::spec_parameter_type(),
        <F as NativeFunction<'a, (A1, A2, A3, A4, A5, A6, A7, A8)>>::spec_signature(&f)->Ok_0.0[4] == A5::spec_parameter_type(),
        <F as NativeFunction<'a, (A1, A2, A3, A4, A5, A6, A7, A8)>>::spec_signature(&f)->Ok_0.0[5] == A6::spec_parameter_type(),
        <F as NativeFunction<'a, (A1, A2, A3, A4, A5, A6, A7, A8)>>::spec_signature(&f)->Ok_0.0[6] == A7::spec_parameter_type(),
        <F as NativeFunction<'a, (A1, A2, A3, A4, A5, A6, A7, A8)>>::spec_signature(&f)->Ok_0.0[7] == A8::spec_parameter_type(),
        <F as NativeFunction<'a, (A1, A2, A3, A4, A5, A6, A7, A8)>>::spec_signature(&f)->Ok_0.1 == R::spec_return_type(),
{
}

/// Calling a function of 9 parameters reads each argument slot as its parameter, calls the
/// function on those values, and writes its result to the result slot as `into_arg`
/// writes it; its signature lists the parameter types in parameter order, then the
/// return type.
pub proof fn lemma_native_function_9<'a, A1: FromArg<'a>, A2: FromArg<'a>, A3: FromArg<'a>, A4: FromArg<'a>, A5: FromArg<'a>, A6: FromArg<'a>, A7: FromArg<'a>, A8: FromArg<'a>, A9: FromArg<'a>, R: IntoArg, F: Fn(A1, A2, A3, A4, A5, A6, A7, A8, A9) -> R>(
    f: F,
    args: &'a [MArgument],
    before: ArgView,
    after: ArgView,
)
    ensures
        <F as NativeFunction<'a, (A1, A2, A3, A4, A5, A6, A7, A8, A9)>>::spec_takes(&f, args@.len()) <==> args@.len() == 9,
        <F as NativeFunction<'a, (A1, A2, A3, A4, A5, A6, A7, A8, A9)>>::spec_call(&f, args, before, after) ==> exists|a1: A1, a2: A2, a3: A3, a4: A4, a5: A5, a6: A6, a7: A7, a8: A8, a9: A9, r: R|
            {
                &&& a1@ == A1::spec_from_arg(args@[0]@)
                &&& a2@ == A2::spec_from_arg(args@[1]@)
                &&& a3@ == A3::spec_from_arg(args@[2]@)
                &&& a4@ == A4::spec_from_arg(args@[3]@)
                &&& a5@ == A5::spec_from_arg(args@[4]@)
                &&& a6@ == A6::spec_from_arg(args@[5]@)
                &&& a7@ == A7::spec_from_arg(args@[6]@)
                &&& a8@ == A8::spec_from_arg(args@[7]@)
                &&& a9@ == A9::spec_from_arg(args@[8]@)
                &&& #[trigger] call_ensures(f, (a1, a2, a3, a4, a5, a6, a7, a8, a9), r)
                &&& after == R::spec_into_arg(r@, before)
            },
        <F as NativeFunction<'a, (A1, A2, A3, A4, A5, A6, A7, A8, A9)>>::spec_reads(&f, args) <==> (args@.len() == 9
            && A1::can_read(args@[0]@)
            && A2::can_read(args@[1]@)
            && A3::can_read(args@[2]@)
            && A4::can_read(args@[3]@)
            && A5::can_read(args@[4]@)
            && A6::can_read(args@[5]@)
            && A7::can_read(args@[6]@)
            && A8::can_read(args@[7]@)
            && A9::can_read(args@[8]@)),
        (<F as NativeFunction<'a, (A1, A2, A3, A4, A5, A6, A7, A8, A9)>>::spec_reads(&f, args)
            && (forall|a1: A1, a2: A2, a3: A3, a4: A4, a5: A5, a6: A6, a7: A7, a8: A8, a9: A9| #[trigger] call_requires(f, (a1, a2, a3, a4, a5, a6, a7, a8, a9)))
            && (forall|a1: A1, a2: A2, a3: A3, a4: A4, a5: A5, a6: A6, a7: A7, a8: A8, a9: A9, r: R| #[trigger] call_ensures(f, (a1, a2, a3, a4, a5, a6, a7, a8, a9), r) ==> R::can_return(r@)))
            ==> <F as NativeFunction<'a, (A1, A2, A3, A4, A5, A6, A7, A8, A9)>>::can_call(&f, args),
        <F as NativeFunction<'a, (A1, A2, A3, A4, A5, A6, A7, A8, A9)>>::has_signature(&f) <==> (A1::is_parameter_type() && A2::is_parameter_type() && A3::is_parameter_type() && A4::is_parameter_type() && A5::is_parameter_type() && A6::is_parameter_type() && A7::is_parameter_type() && A8::is_parameter_type() && A9::is_parameter_type()),
        <F as NativeFunction<'a, (A1, A2, A3, A4, A5, A6, A7, A8, A9)>>::spec_signature(&f) is Ok,
        <F as NativeFunction<'a, (A1, A2, A3, A4, A5, A6, A7, A8, A9)>>::spec_signature(&f)->Ok_0.0.len() == 9,
        <F as NativeFunction<'a, (A1, A2, A3, A4, A5, A6, A7, A8, A9)>>::spec_signature(&f)->Ok_0.0[0] == A1::spec_parameter_type(),
        <F as NativeFunction<'a, (A1, A2, A3, A4, A5, A6, A7, A8, A9)>>::spec_signature(&f)->Ok_0.0[1] == A2::spec_parameter_type(),
        <F as NativeFunction<'a, (A1, A2, A3, A4, A5, A6, A7, A8, A9)>>::spec_signature(&f)->Ok_0.0[2] == A3::spec_parameter_type(),
        <F as NativeFunction<'a, (A1, A2, A3, A4, A5, A6, A7, A8, A9)>>::spec_signature(&f)->Ok_0.0[3] == A4::spec_parameter_type(),
        <F as NativeFunction<'a, (A1, A2, A3, A4, A5, A6, A7, A8, A9)>>::spec_signature(&f)->Ok_0.0[4] == A5::spec_parameter_type(),
        <F as NativeFunction<'a, (A1, A2, A3, A4, A5, A6, A7, A8, A9)>>::spec_signature(&f)->Ok_0.0[5] == A6::spec_parameter_type(),
        <F as NativeFunction<'a, (A1, A2, A3, A4, A5, A6, A7, A8, A9)>>::spec_signature(&f)->Ok_0.0[6] == A7::spec_parameter_type(),
        <F as NativeFunction<'a, (A1, A2, A3, A4, A5, A6, A7, A8, A9)>>::spec_signature(&f)->Ok_0.0[7] == A8::spec_parameter_type(),
        <F as NativeFunction<'a, (A1, A2, A3, A4, A5, A6, A7, A8, A9)>>::spec_signature(&f)->Ok_0.0[8] == A9::spec_parameter_type(),
        <F as NativeFunction<'a, (A1, A2, A3, A4, A5, A6, A7, A8, A9)>>::spec_signature(&f)->Ok_0.1 == R::spec_return_type(),
{
}

/// Calling a function of 10 parameters reads each argument slot as its parameter, calls the
/// function on those values, and writes its result to the result slot as `into_arg`
/// writes it; its signature lists the parameter types in parameter order, then the
/// return type.
pub proof fn lemma_native_function_10<'a, A1: FromArg<'a>, A2: FromArg<'a>, A3: FromArg<'a>, A4: FromArg<'a>, A5: FromArg<'a>, A6: FromArg<'a>, A7: FromArg<'a>, A8: FromArg<'a>, A9: FromArg<'a>, A10: FromArg<'a>, R: IntoArg, F: Fn(A1, A2, A3, A4, A5, A6, A7, A8, A9, A10) -> R>(
    f: F,
    args: &'a [MArgument],
    before: ArgView,
    after: ArgView,
)
    ensures
        <F as NativeFunction<'a, (A1, A2, A3, A4, A5, A6, A7, A8, A9, A10)>>::spec_takes(&f, args@.len()) <==> args@.len() == 10,
        <F as NativeFunction<'a, (A1, A2, A3, A4, A5, A6, A7, A8, A9, A10)>>::spec_call(&f, args, before, after) ==> exists|a1: A1, a2: A2, a3: A3, a4: A4, a5: A5, a6: A6, a7: A7, a8: A8, a9: A9, a10: A10, r: R|
            {
                &&& a1@ == A1::spec_from_arg(args@[0]@)
                &&& a2@ == A2::spec_from_arg(args@[1]@)
                &&& a3@ == A3::spec_from_arg(args@[2]@)
                &&& a4@ == A4::spec_from_arg(args@[3]@)
                &&& a5@ == A5::spec_from_arg(args@[4]@)
                &&& a6@ == A6::spec_from_arg(args@[5]@)
                &&& a7@ == A7::spec_from_arg(args@[6]@)
                &&& a8@ == A8::spec_from_arg(args@[7]@)
                &&& a9@ == A9::spec_from_arg(args@[8]@)
                &&& a10@ == A10::spec_from_arg(args@[9]@)
                &&& #[trigger] call_ensures(f, (a1, a2, a3, a4, a5, a6, a7, a8, a9, a10), r)
                &&& after == R::spec_into_arg(r@, before)
            },
        <F as NativeFunction<'a, (A1, A2, A3, A4, A5, A6, A7, A8, A9, A10)>>::spec_reads(&f, args) <==> (args@.len() == 10
            && A1::can_read(args@[0]@)
            && A2::can_read(args@[1]@)
            && A3::can_read(args@[2]@)
            && A4::can_read(args@[3]@)
            && A5::can_read(args@[4]@)
            && A6::can_read(args@[5]@)
            && A7::can_read(args@[6]@)
            && A8::can_read(args@[7]@)
            && A9::can_read(args@[8]@)
            && A10::can_read(args@[9]@)),
        (<F as NativeFunction<'a, (A1, A2, A3, A4, A5, A6, A7, A8, A9, A10)>>::spec_reads(&f, args)
            && (forall|a1: A1, a2: A2, a3: A3, a4: A4, a5: A5, a6: A6, a7: A7, a8: A8, a9: A9, a10: A10| #[trigger] call_requires(f, (a1, a2, a3, a4, a5, a6, a7, a8, a9, a10)))
            && (forall|a1: A1, a2: A2, a3: A3, a4: A4, a5: A5, a6: A6, a7: A7, a8: A8, a9: A9, a10: A10, r: R| #[trigger] call_ensures(f, (a1, a2, a3, a4, a5, a6, a7, a8, a9, a10), r) ==> R::can_return(r@)))
            ==> <F as NativeFunction<'a, (A1, A2, A3, A4, A5, A6, A7, A8, A9, A10)>>::can_call(&f, args),
        <F as NativeFunction<'a, (A1, A2, A3, A4, A5, A6, A7, A8, A9, A10)>>::has_signature(&f) <==> (A1::is_parameter_type() && A2::is_parameter_type() && A3::is_parameter_type() && A4::is_parameter_type() && A5::is_parameter_type() && A6::is_parameter_type() && A7::is_parameter_type() && A8::is_parameter_type() && A9::is_parameter_type() && A10::is_parameter_type()),
        <F as NativeFunction<'a, (A1, A2, A3, A4, A5, A6, A7, A8, A9, A10)>>::spec_signature(&f) is Ok,
        <F as NativeFunction<'a, (A1, A2, A3, A4, A5, A6, A7, A8, A9, A10)>>::spec_signature(&f)->Ok_0.0.len() == 10,
        <F as NativeFunction<'a, (A1, A2, A3, A4, A5, A6, A7, A8, A9, A10)>>::spec_signature(&f)->Ok_0.0[0] == A1::spec_parameter_type(),
        <F as NativeFunction<'a, (A1, A2, A3, A4, A5, A6, A7, A8, A9, A10)>>::spec_signature(&f)->Ok_0.0[1] == A2::spec_parameter_type(),
        <F as NativeFunction<'a, (A1, A2, A3, A4, A5, A6, A7, A8, A9, A10)>>::spec_signature(&f)->Ok_0.0[2] == A3::spec_parameter_type(),
        <F as NativeFunction<'a, (A1, A2, A3, A4, A5, A6, A7, A8, A9, A10)>>::spec_signature(&f)->Ok_0.0[3] == A4::spec_parameter_type(),
        <F as NativeFunction<'a, (A1, A2, A3, A4, A5, A6, A7, A8, A9, A10)>>::spec_signature(&f)->Ok_0.0[4] == A5::spec_parameter_type(),
        <F as NativeFunction<'a, (A1, A2, A3, A4, A5, A6, A7, A8, A9, A10)>>::spec_signature(&f)->Ok_0.0[5] == A6::spec_parameter_type(),
        <F as NativeFunction<'a, (A1, A2, A3, A4, A5, A6, A7, A8, A9, A10)>>::spec_signature(&f)->Ok_0.0[6] == A7::spec_parameter_type(),
        <F as NativeFunction<'a, (A1, A2, A3, A4, A5, A6, A7, A8, A9, A10)>>::spec_signature(&f)->Ok_0.0[7] == A8::spec_parameter_type(),
        <F as NativeFunction<'a, (A1, A2, A3, A4, A5, A6, A7, A8, A9, A10)>>::spec_signature(&f)->Ok_0.0[8] == A9::spec_parameter_type(),
        <F as NativeFunction<'a, (A1, A2, A3, A4, A5, A6, A7, A8, A9, A10)>>::spec_signature(&f)->Ok_0.0[9] == A10::spec_parameter_type(),
        <F as NativeFunction<'a, (A1, A2, A3, A4, A5, A6, A7, A8, A9, A10)>>::spec_signature(&f)->Ok_0.1 == R::spec_return_type(),
{
}

/// Calling a function of 11 parameters reads each argument slot as its parameter, calls the
/// function on those values, and writes its result to the result slot as `into_arg`
/// writes it; its signature lists the parameter types in parameter order, then the
/// return type.
pub proof fn lemma_native_function_11<'a, A1: FromArg<'a>, A2: FromArg<'a>, A3: FromArg<'a>, A4: FromArg<'a>, A5: FromArg<'a>, A6: FromArg<'a>, A7: FromArg<'a>, A8: FromArg<'a>, A9: FromArg<'a>, A10: FromArg<'a>, A11: FromArg<'a>, R: IntoArg, F: Fn(A1, A2, A3, A4, A5, A6, A7, A8, A9, A10, A11) -> R>(
    f: F,
    args: &'a [MArgument],
    before: ArgView,
    after: ArgView,
)
    ensures
        <F as NativeFunction<'a, (A1, A2, A3, A4, A5, A6, A7, A8, A9, A10, A11)>>::spec_takes(&f, args@.len()) <==> args@.len() == 11,
        <F as NativeFunction<'a, (A1, A2, A3, A4, A5, A6, A7, A8, A9, A10, A11)>>::spec_call(&f, args, before, after) ==> exists|a1: A1, a2: A2, a3: A3, a4: A4, a5: A5, a6: A6, a7: A7, a8: A8, a9: A9, a10: A10, a11: A11, r: R|
            {
                &&& a1@ == A1::spec_from_arg(args@[0]@)
                &&& a2@ == A2::spec_from_arg(args@[1]@)
                &&& a3@ == A3::spec_from_arg(args@[2]@)
                &&& a4@ == A4::spec_from_arg(args@[3]@)
                &&& a5@ == A5::spec_from_arg(args@[4]@)
                &&& a6@ == A6::spec_from_arg(args@[5]@)
                &&& a7@ == A7::spec_from_arg(args@[6]@)
                &&& a8@ == A8::spec_from_arg(args@[7]@)
                &&& a9@ == A9::spec_from_arg(args@[8]@)
                &&& a10@ == A10::spec_from_arg(args@[9]@)
                &&& a11@ == A11::spec_from_arg(args@[10]@)
                &&& #[trigger] call_ensures(f, (a1, a2, a3, a4, a5, a6, a7, a8, a9, a10, a11), r)
                &&& after == R::spec_into_arg(r@, before)
            },
        <F as NativeFunction<'a, (A1, A2, A3, A4, A5, A6, A7, A8, A9, A10, A11)>>::spec_reads(&f, args) <==> (args@.len() == 11
            && A1::can_read(args@[0]@)
            && A2::can_read(args@[1]@)
            && A3::can_read(args@[2]@)
            && A4::can_read(args@[3]@)
            && A5::can_read(args@[4]@)
            && A6::can_read(args@[5]@)
            && A7::can_read(args@[6]@)
            && A8::can_read(args@[7]@)
            && A9::can_read(args@[8]@)
            && A10::can_read(args@[9]@)
            && A11::can_read(args@[10]@)),
        (<F as NativeFunction<'a, (A1, A2, A3, A4, A5, A6, A7, A8, A9, A10, A11)>>::spec_reads(&f, args)
            && (forall|a1: A1, a2: A2, a3: A3, a4: A4, a5: A5, a6: A6, a7: A7, a8: A8, a9: A9, a10: A10, a11: A11| #[trigger] call_requires(f, (a1, a2, a3, a4, a5, a6, a7, a8, a9, a10, a11)))
            && (forall|a1: A1, a2: A2, a3: A3, a4: A4, a5: A5, a6: A6, a7: A7, a8: A8, a9: A9, a10: A10, a11: A11, r: R| #[trigger] call_ensures(f, (a1, a2, a3, a4, a5, a6, a7, a8, a9, a10, a11), r) ==> R::can_return(r@)))
            ==> <F as NativeFunction<'a, (A1, A2, A3, A4, A5, A6, A7, A8, A9, A10, A11)>>::can_call(&f, args),
        <F as NativeFunction<'a, (A1, A2, A3, A4, A5, A6, A7, A8, A9, A10, A11)>>::has_signature(&f) <==> (A1::is_parameter_type() && A2::is_parameter_type() && A3::is_parameter_type() && A4::is_parameter_type() && A5::is_parameter_type() && A6::is_parameter_type() && A7::is_parameter_type() && A8::is_parameter_type() && A9::is_parameter_type() && A10::is_parameter_type() && A11::is_parameter_type()),
        <F as NativeFunction<'a, (A1, A2, A3, A4, A5, A6, A7, A8, A9, A10, A11)>>::spec_signature(&f) is Ok,
        <F as NativeFunction<'a, (A1, A2, A3, A4, A5, A6, A7, A8, A9, A10, A11)>>::spec_signature(&f)->Ok_0.0.len() == 11,
        <F as NativeFunction<'a, (A1, A2, A3, A4, A5, A6, A7, A8, A9, A10, A11)>>::spec_signature(&f)->Ok_0.0[0] == A1::spec_parameter_type(),
        <F as NativeFunction<'a, (A1, A2, A3, A4, A5, A6, A7, A8, A9, A10, A11)>>::spec_signature(&f)->Ok_0.0[1] == A2::spec_parameter_type(),
        <F as NativeFunction<'a, (A1, A2, A3, A4, A5, A6, A7, A8, A9, A10, A11)>>::spec_signature(&f)->Ok_0.0[2] == A3::spec_parameter_type(),
        <F as NativeFunction<'a, (A1, A2, A3, A4, A5, A6, A7, A8, A9, A10, A11)>>::spec_signature(&f)->Ok_0.0[3] == A4::spec_parameter_type(),
        <F as NativeFunction<'a, (A1, A2, A3, A4, A5, A6, A7, A8, A9, A10, A11)>>::spec_signature(&f)->Ok_0.0[4] == A5::spec_parameter_type(),
        <F as NativeFunction<'a, (A1, A2, A3, A4, A5, A6, A7, A8, A9, A10, A11)>>::spec_signature(&f)->Ok_0.0[5] == A6::spec_parameter_type(),
        <F as NativeFunction<'a, (A1, A2, A3, A4, A5, A6, A7, A8, A9, A10, A11)>>::spec_signature(&f)->Ok_0.0[6] == A7::spec_parameter_type(),
        <F as NativeFunction<'a, (A1, A2, A3, A4, A5, A6, A7, A8, A9, A10, A11)>>::spec_signature(&f)->Ok_0.0[7] == A8::spec_parameter_type(),
        <F as NativeFunction<'a, (A1, A2, A3, A4, A5, A6, A7, A8, A9, A10, A11)>>::spec_signature(&f)->Ok_0.0[8] == A9::spec_parameter_type(),
        <F as NativeFunction<'a, (A1, A2, A3, A4, A5, A6, A7, A8, A9, A10, A11)>>::spec_signature(&f)->Ok_0.0[9] == A10::spec_parameter_type(),
        <F as NativeFunction<'a, (A1, A2, A3, A4, A5, A6, A7, A8, A9, A10, A11)>>::spec_signature(&f)->Ok_0.0[10] == A11::spec_parameter_type(),
        <F as NativeFunction<'a, (A1, A2, A3, A4, A5, A6, A7, A8, A9, A10, A11)>>::spec_signature(&f)->Ok_0.1 == R::spec_return_type(),
{
}

/// Calling a function of 12 parameters reads each argument slot as its parameter, calls the
/// function on those values, and writes its result to the result slot as `into_arg`
/// writes it; its signature lists the parameter types in parameter order, then the
/// return type.
pub proof fn lemma_native_function_12<'a, A1: FromArg<'a>, A2: FromArg<'a>, A3: FromArg<'a>, A4: FromArg<'a>, A5: FromArg<'a>, A6: FromArg<'a>, A7: FromArg<'a>, A8: FromArg<'a>, A9: FromArg<'a>, A10: FromArg<'a>, A11: FromArg<'a>, A12: FromArg<'a>, R: IntoArg, F: Fn(A1, A2, A3, A4, A5, A6, A7, A8, A9, A10, A11, A12) -> R>(
    f: F,
    args: &'a [MArgument],
    before: ArgView,
    after: ArgView,
)
    ensures
        <F as NativeFunction<'a, (A1, A2, A3, A4, A5, A6, A7, A8, A9, A10, A11, A12)>>::spec_takes(&f, args@.len()) <==> args@.len() == 12,
        <F as NativeFunction<'a, (A1, A2, A3, A4, A5, A6, A7, A8, A9, A10, A11, A12)>>::spec_call(&f, args, before, after) ==> exists|a1: A1, a2: A2, a3: A3, a4: A4, a5: A5, a6: A6, a7: A7, a8: A8, a9: A9, a10: A10, a11: A11, a12: A12, r: R|
            {
                &&& a1@ == A1::spec_from_arg(args@[0]@)
                &&& a2@ == A2::spec_from_arg(args@[1]@)
                &&& a3@ == A3::spec_from_arg(args@[2]@)
                &&& a4@ == A4::spec_from_arg(args@[3]@)
                &&& a5@ == A5::spec_from_arg(args@[4]@)
                &&& a6@ == A6::spec_from_arg(args@[5]@)
                &&& a7@ == A7::spec_from_arg(args@[6]@)
                &&& a8@ == A8::spec_from_arg(args@[7]@)
                &&& a9@ == A9::spec_from_arg(args@[8]@)
                &&& a10@ == A10::spec_from_arg(args@[9]@)
                &&& a11@ == A11::spec_from_arg(args@[10]@)
                &&& a12@ == A12::spec_from_arg(args@[11]@)
                &&& #[trigger] call_ensures(f, (a1, a2, a3, a4, a5, a6, a7, a8, a9, a10, a11, a12), r)
                &&& after == R::spec_into_arg(r@, before)
            },
        <F as NativeFunction<'a, (A1, A2, A3, A4, A5, A6, A7, A8, A9, A10, A11, A12)>>::spec_reads(&f, args) <==> (args@.len() == 12
            && A1::can_read(args@[0]@)
            && A2::can_read(args@[1]@)
            && A3::can_read(args@[2]@)
            && A4::can_read(args@[3]@)
            && A5::can_read(args@[4]@)
            && A6::can_read(args@[5]@)
            && A7::can_read(args@[6]@)
            && A8::can_read(args@[7]@)
            && A9::can_read(args@[8]@)
            && A10::can_read(args@[9]@)
            && A11::can_read(args@[10]@)
            && A12::can_read(args@[11]@)),
        (<F as NativeFunction<'a, (A1, A2, A3, A4, A5, A6, A7, A8, A9, A10, A11, A12)>>::spec_reads(&f, args)
            && (forall|a1: A1, a2: A2, a3: A3, a4: A4, a5: A5, a6: A6, a7: A7, a8: A8, a9: A9, a10: A10, a11: A11, a12: A12| #[trigger] call_requires(f, (a1, a2, a3, a4, a5, a6, a7, a8, a9, a10, a11, a12)))
            && (forall|a1: A1, a2: A2, a3: A3, a4: A4, a5: A5, a6: A6, a7: A7, a8: A8, a9: A9, a10: A10, a11: A11, a12: A12, r: R| #[trigger] call_ensures(f, (a1, a2, a3, a4, a5, a6, a7, a8, a9, a10, a11, a12), r) ==> R::can_return(r@)))
            ==> <F as NativeFunction<'a, (A1, A2, A3, A4, A5, A6, A7, A8, A9, A10, A11, A12)>>::can_call(&f, args),
        <F as NativeFunction<'a, (A1, A2, A3, A4, A5, A6, A7, A8, A9, A10, A11, A12)>>::has_signature(&f) <==> (A1::is_parameter_type() && A2::is_parameter_type() && A3::is_parameter_type() && A4::is_parameter_type() && A5::is_parameter_type() && A6::is_parameter_type() && A7::is_parameter_type() && A8::is_parameter_type() && A9::is_parameter_type() && A10::is_parameter_type() && A11::is_parameter_type() && A12::is_parameter_type()),
        <F as NativeFunction<'a, (A1, A2, A3, A4, A5, A6, A7, A8, A9, A10, A11, A12)>>::spec_signature(&f) is Ok,
        <F as NativeFunction<'a, (A1, A2, A3, A4, A5, A6, A7, A8, A9, A10, A11, A12)>>::spec_signature(&f)->Ok_0.0.len() == 12,
        <F as NativeFunction<'a, (A1, A2, A3, A4, A5, A6, A7, A8, A9, A10, A11, A12)>>::spec_signature(&f)->Ok_0.0[0] == A1::spec_parameter_type(),
        <F as NativeFunction<'a, (A1, A2, A3, A4, A5, A6, A7, A8, A9, A10, A11, A12)>>::spec_signature(&f)->Ok_0.0[1] == A2::spec_parameter_type(),
        <F as NativeFunction<'a, (A1, A2, A3, A4, A5, A6, A7, A8, A9, A10, A11, A12)>>::spec_signature(&f)->Ok_0.0[2] == A3::spec_parameter_type(),
        <F as NativeFunction<'a, (A1, A2, A3, A4, A5, A6, A7, A8, A9, A10, A11, A12)>>::spec_signature(&f)->Ok_0.0[3] == A4::spec_parameter_type(),
        <F as NativeFunction<'a, (A1, A2, A3, A4, A5, A6, A7, A8, A9, A10, A11, A12)>>::spec_signature(&f)->Ok_0.0[4] == A5::spec_parameter_type(),
        <F as NativeFunction<'a, (A1, A2, A3, A4, A5, A6, A7, A8, A9, A10, A11, A12)>>::spec_signature(&f)->Ok_0.0[5] == A6::spec_parameter_type(),
        <F as NativeFunction<'a, (A1, A2, A3, A4, A5, A6, A7, A8, A9, A10, A11, A12)>>::spec_signature(&f)->Ok_0.0[6] == A7::spec_parameter_type(),
        <F as NativeFunction<'a, (A1, A2, A3, A4, A5, A6, A7, A8, A9, A10, A11, A12)>>::spec_signature(&f)->Ok_0.0[7] == A8::spec_parameter_type(),
        <F as NativeFunction<'a, (A1, A2, A3, A4, A5, A6, A7, A8, A9, A10, A11, A12)>>::spec_signature(&f)->Ok_0.0[8] == A9::spec_parameter_type(),
        <F as NativeFunction<'a, (A1, A2, A3, A4, A5, A6, A7, A8, A9, A10, A11, A12)>>::spec_signature(&f)->Ok_0.0[9] == A10::spec_parameter_type(),
        <F as NativeFunction<'a, (A1, A2, A3, A4, A5, A6, A7, A8, A9, A10, A11, A12)>>::spec_signature(&f)->Ok_0.0[10] == A11::spec_parameter_type(),
        <F as NativeFunction<'a, (A1, A2, A3, A4, A5, A6, A7, A8, A9, A10, A11, A12)>>::spec_signature(&f)->Ok_0.0[11] == A12::spec_parameter_type(),
        <F as NativeFunction<'a, (A1, A2, A3, A4, A5, A6, A7, A8, A9, A10, A11, A12)>>::spec_signature(&f)->Ok_0.1 == R::spec_return_type(),
{
}

} // verus!
