//! The C function behind a function of an object.
use crate::configuration::{
    Function, FunctionView, Object, ObjectView, simple_is_complex, simple_name, simple_rust_type,
    SimpleType,
};
use crate::configuration_private::SimpleTypePrivate;
use crate::rust::templates::{
    BLOCK_CLOSE, FUNCTION_ARGUMENT_BYTES, FUNCTION_ARGUMENT_STRING, FUNCTION_ARGUMENT_VALUE,
    FUNCTION_CALL, FUNCTION_CALL_COMPLEX, FUNCTION_LOCAL_BYTES, FUNCTION_LOCAL_STRING,
    FUNCTION_OBJECT, FUNCTION_OBJECT_MUT, FUNCTION_OPEN, FUNCTION_RETURN_COMPLEX,
    FUNCTION_RETURN_VALUE, FUNCTION_RETURN_VOID, FUNCTION_SET_RESULT,
};
use crate::text::{emit, emit1, emit2, emit4, empty, fill, group_concat};
use crate::util::{snake_case, snake_case_text, snake_ready};
use vstd::prelude::*;
use vstd::string::*;

verus! {

/// The first `n` arguments as parameters of the C function; text and
/// bytes come as a pointer and a length.
pub open spec fn function_parameters_text(f: FunctionView, n: nat) -> Seq<char>
    decreases n,
{
    if n == 0 {
        empty()
    } else {
        let a = f.arguments[n - 1];
        function_parameters_text(f, (n - 1) as nat) + ", "@ + (if simple_name(a.argument_type)
            == "QString"@ {
            fill(FUNCTION_ARGUMENT_STRING@, seq![a.name])
        } else if simple_name(a.argument_type) == "QByteArray"@ {
            fill(FUNCTION_ARGUMENT_BYTES@, seq![a.name])
        } else {
            fill(FUNCTION_ARGUMENT_VALUE@, seq![a.name, simple_rust_type(a.argument_type)])
        })
    }
}

/// The statements that turn the first `n` arguments into Rust values.
pub open spec fn function_locals_text(f: FunctionView, n: nat) -> Seq<char>
    decreases n,
{
    if n == 0 {
        empty()
    } else {
        let a = f.arguments[n - 1];
        function_locals_text(f, (n - 1) as nat) + (if simple_name(a.argument_type) == "QString"@ {
            fill(FUNCTION_LOCAL_STRING@, seq![a.name])
        } else if simple_name(a.argument_type) == "QByteArray"@ {
            fill(FUNCTION_LOCAL_BYTES@, seq![a.name])
        } else {
            empty()
        })
    }
}

/// The names of the first `n` arguments, with commas between them.
pub open spec fn function_call_arguments_text(f: FunctionView, n: nat) -> Seq<char>
    decreases n,
{
    if n == 0 {
        empty()
    } else {
        function_call_arguments_text(f, (n - 1) as nat) + (if n > 1 {
            ", "@
        } else {
            empty()
        }) + f.arguments[n - 1].name
    }
}

/// The head of the C function: its name, its parameters and what it
/// returns.
pub open spec fn function_head_text(
    name: Seq<char>,
    f: FunctionView,
    lcname: Seq<char>,
    o: ObjectView,
) -> Seq<char> {
    fill(
        FUNCTION_OPEN@,
        seq![lcname, snake_case_text(name), if f.mutable {
            "mut"@
        } else {
            "const"@
        }, o.name],
    ) + function_parameters_text(f, f.arguments.len()) + (if simple_is_complex(f.return_type) {
        fill(FUNCTION_RETURN_COMPLEX@, seq![simple_name(f.return_type)])
    } else if f.return_type == SimpleType::Void {
        FUNCTION_RETURN_VOID@
    } else {
        fill(FUNCTION_RETURN_VALUE@, seq![simple_rust_type(f.return_type)])
    })
}

/// The body of the C function: it calls the function of the object and
/// hands text and bytes back through the setter it was given.
pub open spec fn function_body_text(name: Seq<char>, f: FunctionView) -> Seq<char> {
    function_locals_text(f, f.arguments.len()) + (if f.mutable {
        FUNCTION_OBJECT_MUT@
    } else {
        FUNCTION_OBJECT@
    }) + fill(
        if simple_is_complex(f.return_type) {
            FUNCTION_CALL_COMPLEX@
        } else {
            FUNCTION_CALL@
        },
        seq![snake_case_text(name)],
    ) + function_call_arguments_text(f, f.arguments.len()) + ")"@ + (if simple_is_complex(
        f.return_type,
    ) {
        ";\n"@ + FUNCTION_SET_RESULT@
    } else {
        "\n"@
    }) + BLOCK_CLOSE@
}

/// The C function behind a function of an object.
pub open spec fn function_text(
    name: Seq<char>,
    f: FunctionView,
    lcname: Seq<char>,
    o: ObjectView,
) -> Seq<char> {
    function_head_text(name, f, lcname, o) + function_body_text(name, f)
}

/// Writes the head of the C function: its name, its parameters and what
/// it returns.
fn write_function_head(r: &mut String, name: &str, f: &Function, lcname: &str, o: &Object)
    requires
        snake_ready(),
    ensures
        final(r)@ == old(r)@ + function_head_text(name@, f@, lcname@, o@),
{
    broadcast use group_concat;

    let lc = snake_case(name);
    emit4(
        r,
        FUNCTION_OPEN,
        lcname,
        lc.as_str(),
        if f.mutable { "mut" } else { "const" },
        o.name.as_str(),
    );
    let ghost r0 = r@;
    let mut i: usize = 0;
    while i < f.arguments.len()
        invariant
            i <= f.arguments.len(),
            r@ == r0 + function_parameters_text(f@, i as nat),
        decreases f.arguments.len() - i,
    {
        let a = &f.arguments[i];
        emit(r, ", ");
        if a.argument_type.name().eq("QString") {
            emit1(r, FUNCTION_ARGUMENT_STRING, a.name.as_str());
        } else if a.argument_type.name().eq("QByteArray") {
            emit1(r, FUNCTION_ARGUMENT_BYTES, a.name.as_str());
        } else {
            emit2(r, FUNCTION_ARGUMENT_VALUE, a.name.as_str(), a.argument_type.rust_type());
        }
        i = i + 1;
    }
    if f.return_type.is_complex() {
        emit1(r, FUNCTION_RETURN_COMPLEX, f.return_type.name());
    } else if f.return_type == SimpleType::Void {
        emit(r, FUNCTION_RETURN_VOID);
    } else {
        emit1(r, FUNCTION_RETURN_VALUE, f.return_type.rust_type());
    }
}

/// Writes the statements that turn the arguments into Rust values.
fn write_function_locals(r: &mut String, f: &Function)
    ensures
        final(r)@ == old(r)@ + function_locals_text(f@, f@.arguments.len()),
{
    broadcast use group_concat;

    let ghost r0 = r@;
    let mut i: usize = 0;
    while i < f.arguments.len()
        invariant
            i <= f.arguments.len(),
            r@ == r0 + function_locals_text(f@, i as nat),
        decreases f.arguments.len() - i,
    {
        let a = &f.arguments[i];
        if a.argument_type.name().eq("QString") {
            emit1(r, FUNCTION_LOCAL_STRING, a.name.as_str());
        } else if a.argument_type.name().eq("QByteArray") {
            emit1(r, FUNCTION_LOCAL_BYTES, a.name.as_str());
        }
        i = i + 1;
    }
}

/// Writes the names of the arguments, with commas between them.
fn write_function_call_arguments(r: &mut String, f: &Function)
    ensures
        final(r)@ == old(r)@ + function_call_arguments_text(f@, f@.arguments.len()),
{
    broadcast use group_concat;

    let ghost r0 = r@;
    let mut i: usize = 0;
    while i < f.arguments.len()
        invariant
            i <= f.arguments.len(),
            r@ == r0 + function_call_arguments_text(f@, i as nat),
        decreases f.arguments.len() - i,
    {
        if i > 0 {
            emit(r, ", ");
        }
        emit(r, f.arguments[i].name.as_str());
        i = i + 1;
    }
}

/// Writes the body of the C function: it calls the function of the
/// object and hands text and bytes back through the setter it was
/// given.
fn write_function_body(r: &mut String, name: &str, f: &Function)
    requires
        snake_ready(),
    ensures
        final(r)@ == old(r)@ + function_body_text(name@, f@),
{
    broadcast use group_concat;

    let lc = snake_case(name);
    write_function_locals(r, f);
    if f.mutable {
        emit(r, FUNCTION_OBJECT_MUT);
    } else {
        emit(r, FUNCTION_OBJECT);
    }
    if f.return_type.is_complex() {
        emit1(r, FUNCTION_CALL_COMPLEX, lc.as_str());
    } else {
        emit1(r, FUNCTION_CALL, lc.as_str());
    }
    write_function_call_arguments(r, f);
    emit(r, ")");
    if f.return_type.is_complex() {
        emit(r, ";\n");
        emit(r, FUNCTION_SET_RESULT);
    } else {
        emit(r, "\n");
    }
    emit(r, BLOCK_CLOSE);
}

/// Writes the C function behind a function of an object.
pub fn write_function(r: &mut String, name: &str, f: &Function, lcname: &str, o: &Object)
    requires
        snake_ready(),
    ensures
        final(r)@ == old(r)@ + function_text(name@, f@, lcname@, o@),
{
    broadcast use group_concat;

    write_function_head(r, name, f, lcname, o);
    write_function_body(r, name, f);
}

} // verus!
