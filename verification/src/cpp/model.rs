//! The C++ side of lists and trees: the functions of the item model.
use crate::configuration::{
    c_get_type_text, column_count, item_cpp_set_type, ItemProperty, ItemPropertyView, Object,
    ObjectType, ObjectView, simple_c_set_type, simple_is_complex, simple_name,
};
use crate::configuration_private::{ItemPropertyPrivate, ObjectPrivate, TypeName};
use crate::cpp::{
    is_column_write, is_column_write_spec, model_is_writable, model_is_writable_spec, property_type,
    property_type_text, role_name, role_name_text, setter_type, setter_type_text, upper_initial,
    upper_initial_text,
};
use crate::cpp::dispatch::{claims, Role};
use crate::cpp::templates::{
    C_OPEN, CAN_CONVERT_OR_FALSE, DATA_CLOSE_ROLE_NAMES_OPEN, DATA_COLUMN, DATA_COLUMN_CLOSE,
    DATA_OPEN, DATA_RETURN, DATA_RETURN_CLEAN, DATA_RETURN_VALUE, DATA_ROLE, DATA_SWITCH,
    DATA_USER_ROLE, ELSE_OPEN, FLAGS_CLOSE, FLAGS_COLUMN, FLAGS_EDITABLE, GET_BYTES_CALL,
    GET_STRING_CALL, GET_VARIANT_CALL, GETTER_CLOSE, IF_CLOSE, IF_OPEN, ITEM_DATA_COMPLEX_DECL,
    ITEM_DATA_DECL, LIST_GETTER_OPEN, LIST_MODEL, LIST_SETTER_END, LIST_SETTER_OPEN, LOCAL_BYTES,
    LOCAL_STRING, LOCAL_VARIANT, RETURN_DATA_CALL, RETURN_LOCAL_BYTES, RETURN_LOCAL_STRING,
    RETURN_LOCAL_VARIANT, ROLE_NAME_INSERT, ROLE_NAMES_CLOSE_HEADER_DATA, SET_DATA_CALL,
    SET_DATA_CLOSE, SET_DATA_COLUMN, SET_DATA_COLUMN_CLOSE, SET_DATA_CONVERT_CLOSE,
    SET_DATA_CONVERTED_CALL, SET_DATA_DECL_BYTES, SET_DATA_DECL_NAME, SET_DATA_DECL_NONE,
    SET_DATA_DECL_OBJECT, SET_DATA_DECL_STRING, SET_DATA_DECL_VALUE, SET_DATA_IF,
    SET_DATA_IF_CONVERT, SET_DATA_NONE_CALL, SET_DATA_OPEN, SET_DATA_RETURN,
    SET_DATA_RETURN_CONVERTED, SET_DATA_ROLE, SET_DATA_ROLE_CLOSE, SET_DATA_USER_ROLE, SET_FLAG,
    SORT_AND_FLAGS_OPEN, SORT_DECL, TREE_GETTER_OPEN, TREE_MODEL, TREE_SETTER_END, TREE_SETTER_OPEN,
};
use crate::text::{
    decimal, decimal_string, emit, emit1, emit2, emit3, emit4, emit5, empty, fill, group_concat,
    lowercase,
};
use crate::util::{snake_case, snake_case_text, snake_ready};
use crate::validity::{column_roles_known, item_roles_known, role_known, roles_ok};
use vstd::prelude::*;
use vstd::string::*;

verus! {

/// How the C functions of an item are told which item is meant, seen
/// from a C++ function that takes a row or an index.
pub open spec fn item_argument_text(o: ObjectView) -> Seq<char> {
    if o.object_type == ObjectType::List {
        ", row"@
    } else if o.object_type == ObjectType::Tree {
        ", index.internalId()"@
    } else {
        ", index.row()"@
    }
}

/// How the C functions of an item hand that parameter on.
fn item_argument(o: &Object) -> (r: &'static str)
    ensures
        r@ == item_argument_text(o@),
{
    match o.object_type {
        ObjectType::List => ", row",
        ObjectType::Tree => ", index.internalId()",
        ObjectType::Object => ", index.row()",
    }
}

/// The definition of the getter of an item property.
pub open spec fn model_getter_text(
    name: Seq<char>,
    p: ItemPropertyView,
    o: ObjectView,
) -> Seq<char> {
    let lcname = snake_case_text(o.name);
    let lc = snake_case_text(name);
    let idx = item_argument_text(o);
    let tname = simple_name(p.item_property_type);
    fill(
        if o.object_type == ObjectType::List {
            LIST_GETTER_OPEN@
        } else {
            TREE_GETTER_OPEN@
        },
        seq![property_type_text(p), o.name, name],
    ) + (if tname == "QString"@ {
        LOCAL_STRING@ + fill(GET_STRING_CALL@, seq![lcname, lc, idx, lowercase(tname)])
            + RETURN_LOCAL_STRING@
    } else if tname == "QByteArray"@ {
        LOCAL_BYTES@ + fill(GET_BYTES_CALL@, seq![lcname, lc, idx, lowercase(tname)])
            + RETURN_LOCAL_BYTES@
    } else if p.optional {
        LOCAL_VARIANT@ + fill(GET_VARIANT_CALL@, seq![lcname, lc, idx]) + RETURN_LOCAL_VARIANT@
    } else {
        fill(RETURN_DATA_CALL@, seq![lcname, lc, idx])
    }) + GETTER_CLOSE@
}

/// Writes the definition of the getter of an item property.
fn write_model_getter(w: &mut String, name: &str, ip: &ItemProperty, o: &Object)
    requires
        snake_ready(),
    ensures
        final(w)@ == old(w)@ + model_getter_text(name@, ip@, o@),
{
    broadcast use group_concat;

    let lcname = snake_case(o.name.as_str());
    let lc = snake_case(name);
    let idx = item_argument(o);
    let r = property_type(ip);
    if o.object_type == ObjectType::List {
        emit3(w, LIST_GETTER_OPEN, r.as_str(), o.name.as_str(), name);
    } else {
        emit3(w, TREE_GETTER_OPEN, r.as_str(), o.name.as_str(), name);
    }
    if ip.name_of_type().eq("QString") {
        emit(w, LOCAL_STRING);
        emit4(
            w,
            GET_STRING_CALL,
            lcname.as_str(),
            lc.as_str(),
            idx,
            ip.name_of_type().to_lowercase().as_str(),
        );
        emit(w, RETURN_LOCAL_STRING);
    } else if ip.name_of_type().eq("QByteArray") {
        emit(w, LOCAL_BYTES);
        emit4(
            w,
            GET_BYTES_CALL,
            lcname.as_str(),
            lc.as_str(),
            idx,
            ip.name_of_type().to_lowercase().as_str(),
        );
        emit(w, RETURN_LOCAL_BYTES);
    } else if ip.optional {
        emit(w, LOCAL_VARIANT);
        emit3(w, GET_VARIANT_CALL, lcname.as_str(), lc.as_str(), idx);
        emit(w, RETURN_LOCAL_VARIANT);
    } else {
        emit3(w, RETURN_DATA_CALL, lcname.as_str(), lc.as_str(), idx);
    }
    emit(w, GETTER_CLOSE);
}

/// The C++ test for a value that stands for none.
pub open spec fn is_none_test_text(p: ItemPropertyView) -> Seq<char> {
    if simple_is_complex(p.item_property_type) {
        "value.isNull()"@
    } else {
        "value.isNull()"@ + " || !value.isValid()"@
    }
}

/// The value as it is handed to the C function; text and bytes go as a
/// pointer and a length.
pub open spec fn value_argument_text(p: ItemPropertyView) -> Seq<char> {
    if simple_is_complex(p.item_property_type) {
        if simple_name(p.item_property_type) == "QString"@ {
            "value.utf16(), value.length()"@
        } else {
            "value.data(), value.length()"@
        }
    } else {
        "value"@
    }
}

/// The statements of a setter that hand the value on.
pub open spec fn model_setter_body_text(
    name: Seq<char>,
    p: ItemPropertyView,
    o: ObjectView,
) -> Seq<char> {
    let lcname = snake_case_text(o.name);
    let lc = snake_case_text(name);
    let idx = item_argument_text(o);
    let tname = simple_name(p.item_property_type);
    (if p.optional {
        fill(IF_OPEN@, seq![is_none_test_text(p)]) + fill(
            SET_DATA_NONE_CALL@,
            seq![lcname, lc, idx],
        ) + ELSE_OPEN@
    } else {
        empty()
    }) + (if p.optional && !simple_is_complex(p.item_property_type) {
        fill(CAN_CONVERT_OR_FALSE@, seq![tname]) + fill(
            SET_DATA_CONVERTED_CALL@,
            seq![lcname, lc, idx, tname],
        )
    } else {
        fill(SET_DATA_CALL@, seq![lcname, lc, idx, value_argument_text(p)])
    }) + (if p.optional {
        IF_CLOSE@
    } else {
        empty()
    })
}

/// The definition of the setter of an item property.
pub open spec fn model_setter_text(
    name: Seq<char>,
    p: ItemPropertyView,
    o: ObjectView,
) -> Seq<char> {
    fill(
        if o.object_type == ObjectType::List {
            LIST_SETTER_OPEN@
        } else {
            TREE_SETTER_OPEN@
        },
        seq![o.name, upper_initial_text(name), setter_type_text(p)],
    ) + SET_FLAG@ + model_setter_body_text(name, p, o) + (if o.object_type == ObjectType::List {
        LIST_SETTER_END@
    } else {
        TREE_SETTER_END@
    })
}

/// The definitions of the getter of an item property and, where it can
/// be written, of its setter.
pub open spec fn model_getter_setter_text(
    name: Seq<char>,
    p: ItemPropertyView,
    o: ObjectView,
) -> Seq<char> {
    model_getter_text(name, p, o) + (if p.write {
        model_setter_text(name, p, o)
    } else {
        empty()
    })
}

/// Writes the statements of a setter that hand the value on.
fn write_model_setter_body(w: &mut String, name: &str, ip: &ItemProperty, o: &Object)
    requires
        snake_ready(),
    ensures
        final(w)@ == old(w)@ + model_setter_body_text(name@, ip@, o@),
{
    broadcast use group_concat;

    let lcname = snake_case(o.name.as_str());
    let lc = snake_case(name);
    let idx = item_argument(o);
    if ip.optional {
        let mut test = String::from_str("value.isNull()");
        if !ip.is_complex() {
            test.append(" || !value.isValid()");
        }
        emit1(w, IF_OPEN, test.as_str());
        emit3(w, SET_DATA_NONE_CALL, lcname.as_str(), lc.as_str(), idx);
        emit(w, ELSE_OPEN);
    }
    if ip.optional && !ip.is_complex() {
        emit1(w, CAN_CONVERT_OR_FALSE, ip.name_of_type());
        emit4(w, SET_DATA_CONVERTED_CALL, lcname.as_str(), lc.as_str(), idx, ip.name_of_type());
    } else {
        let mut val = "value";
        if ip.is_complex() {
            if ip.name_of_type().eq("QString") {
                val = "value.utf16(), value.length()";
            } else {
                val = "value.data(), value.length()";
            }
        }
        emit4(w, SET_DATA_CALL, lcname.as_str(), lc.as_str(), idx, val);
    }
    if ip.optional {
        emit(w, IF_CLOSE);
    }
}

/// Writes the definitions of the getter of an item property and, where
/// it can be written, of its setter.
pub fn write_model_getter_setter(w: &mut String, name: &str, ip: &ItemProperty, o: &Object)
    requires
        snake_ready(),
    ensures
        final(w)@ == old(w)@ + model_getter_setter_text(name@, ip@, o@),
{
    broadcast use group_concat;

    write_model_getter(w, name, ip, o);
    if !ip.write {
        return ;
    }
    let r = setter_type(ip);
    if o.object_type == ObjectType::List {
        emit3(w, LIST_SETTER_OPEN, o.name.as_str(), upper_initial(name).as_str(), r.as_str());
    } else {
        emit3(w, TREE_SETTER_OPEN, o.name.as_str(), upper_initial(name).as_str(), r.as_str());
    }
    emit(w, SET_FLAG);
    write_model_setter_body(w, name, ip, o);
    if o.object_type == ObjectType::List {
        emit(w, LIST_SETTER_END);
    } else {
        emit(w, TREE_SETTER_END);
    }
}

/// The definitions for the first `n` item properties.
pub open spec fn model_getters_setters_text(o: ObjectView, n: nat) -> Seq<char>
    decreases n,
{
    if n == 0 {
        empty()
    } else {
        model_getters_setters_text(o, (n - 1) as nat) + model_getter_setter_text(
            o.item_properties[n - 1].0,
            o.item_properties[n - 1].1,
            o,
        )
    }
}

/// Writes the definitions for the item properties.
fn write_model_getters_setters(w: &mut String, o: &Object)
    requires
        snake_ready(),
        roles_ok(o@.item_properties, o@.item_properties.len()),
    ensures
        final(w)@ == old(w)@ + model_getters_setters_text(o@, o@.item_properties.len()),
{
    broadcast use group_concat;

    let ghost w0 = w@;
    let mut i: usize = 0;
    while i < o.item_properties.len()
        invariant
            i <= o.item_properties.len(),
            snake_ready(),
            roles_ok(o@.item_properties, o@.item_properties.len()),
            w@ == w0 + model_getters_setters_text(o@, i as nat),
        decreases o.item_properties.len() - i,
    {
        write_model_getter_setter(w, o.item_properties[i].0.as_str(), &o.item_properties[i].1, o);
        i = i + 1;
    }
}

/// How the C functions of an item declare the parameter that tells which
/// item is meant.
pub open spec fn item_parameter_text(o: ObjectView) -> Seq<char> {
    if o.object_type == ObjectType::Tree {
        ", quintptr"@
    } else {
        ", int"@
    }
}

/// The declarations of the C functions that get and set an item property.
pub open spec fn item_c_decl_text(
    name: Seq<char>,
    p: ItemPropertyView,
    o: ObjectView,
) -> Seq<char> {
    let lcname = snake_case_text(o.name);
    let lc = snake_case_text(name);
    let index_decl = item_parameter_text(o);
    let tname = simple_name(p.item_property_type);
    let a = fill(SET_DATA_DECL_NAME@, seq![lcname, lc]);
    let b = fill(SET_DATA_DECL_OBJECT@, seq![o.name, index_decl]);
    (if simple_is_complex(p.item_property_type) {
        fill(ITEM_DATA_COMPLEX_DECL@, seq![lcname, lc, o.name, index_decl, c_get_type_text(tname)])
    } else {
        fill(ITEM_DATA_DECL@, seq![item_cpp_set_type(p), lcname, lc, o.name, index_decl])
    }) + (if p.write {
        (if tname == "QString"@ {
            fill(SET_DATA_DECL_STRING@, seq![a, b])
        } else if tname == "QByteArray"@ {
            fill(SET_DATA_DECL_BYTES@, seq![a, b])
        } else {
            fill(SET_DATA_DECL_VALUE@, seq![a, b, simple_c_set_type(p.item_property_type)])
        }) + (if p.optional {
            fill(SET_DATA_DECL_NONE@, seq![a, b])
        } else {
            empty()
        })
    } else {
        empty()
    })
}

/// The declarations for the first `n` item properties.
pub open spec fn items_c_decl_text(o: ObjectView, n: nat) -> Seq<char>
    decreases n,
{
    if n == 0 {
        empty()
    } else {
        items_c_decl_text(o, (n - 1) as nat) + item_c_decl_text(
            o.item_properties[n - 1].0,
            o.item_properties[n - 1].1,
            o,
        )
    }
}

/// Writes the declarations of the C functions that get and set an item
/// property.
fn write_item_c_decl(w: &mut String, name: &str, ip: &ItemProperty, o: &Object)
    requires
        snake_ready(),
    ensures
        final(w)@ == old(w)@ + item_c_decl_text(name@, ip@, o@),
{
    broadcast use group_concat;

    let lcname = snake_case(o.name.as_str());
    let lc = snake_case(name);
    let index_decl = if o.object_type == ObjectType::Tree {
        ", quintptr"
    } else {
        ", int"
    };
    if ip.is_complex() {
        emit5(
            w,
            ITEM_DATA_COMPLEX_DECL,
            lcname.as_str(),
            lc.as_str(),
            o.name.as_str(),
            index_decl,
            ip.c_get_type().as_str(),
        );
    } else {
        emit5(
            w,
            ITEM_DATA_DECL,
            ip.cpp_set_type().as_str(),
            lcname.as_str(),
            lc.as_str(),
            o.name.as_str(),
            index_decl,
        );
    }
    if ip.write {
        let mut a = String::new();
        emit2(&mut a, SET_DATA_DECL_NAME, lcname.as_str(), lc.as_str());
        let mut b = String::new();
        emit2(&mut b, SET_DATA_DECL_OBJECT, o.name.as_str(), index_decl);
        if ip.name_of_type().eq("QString") {
            emit2(w, SET_DATA_DECL_STRING, a.as_str(), b.as_str());
        } else if ip.name_of_type().eq("QByteArray") {
            emit2(w, SET_DATA_DECL_BYTES, a.as_str(), b.as_str());
        } else {
            emit3(w, SET_DATA_DECL_VALUE, a.as_str(), b.as_str(), ip.c_set_type());
        }
        if ip.optional {
            emit2(w, SET_DATA_DECL_NONE, a.as_str(), b.as_str());
        }
    }
}

/// The declarations of the C functions of a list or tree, and the
/// functions of the item model that tell of its shape.
pub open spec fn model_shape_text(o: ObjectView) -> Seq<char> {
    let lcname = snake_case_text(o.name);
    C_OPEN@ + items_c_decl_text(o, o.item_properties.len()) + fill(SORT_DECL@, seq![lcname, o.name])
        + fill(
        if o.object_type == ObjectType::List {
            LIST_MODEL@
        } else {
            TREE_MODEL@
        },
        seq![o.name, lcname, decimal(column_count(o))],
    )
}

/// Writes the declarations of the C functions of a list or tree, and
/// the functions of the item model that tell of its shape.
fn write_model_shape(w: &mut String, o: &Object)
    requires
        snake_ready(),
        roles_ok(o@.item_properties, o@.item_properties.len()),
    ensures
        final(w)@ == old(w)@ + model_shape_text(o@),
{
    broadcast use group_concat;

    let lcname = snake_case(o.name.as_str());
    emit(w, C_OPEN);
    let ghost w0 = w@;
    let mut i: usize = 0;
    while i < o.item_properties.len()
        invariant
            i <= o.item_properties.len(),
            snake_ready(),
            roles_ok(o@.item_properties, o@.item_properties.len()),
            w@ == w0 + items_c_decl_text(o@, i as nat),
        decreases o.item_properties.len() - i,
    {
        write_item_c_decl(w, o.item_properties[i].0.as_str(), &o.item_properties[i].1, o);
        i = i + 1;
    }
    emit2(w, SORT_DECL, lcname.as_str(), o.name.as_str());
    let columns = decimal_string(o.column_count());
    if o.object_type == ObjectType::List {
        emit3(w, LIST_MODEL, o.name.as_str(), lcname.as_str(), columns.as_str());
    } else {
        emit3(w, TREE_MODEL, o.name.as_str(), lcname.as_str(), columns.as_str());
    }
}

/// The statements that mark the first `n` columns as editable, where an
/// item property can be written there.
pub open spec fn flags_columns_text(o: ObjectView, n: nat) -> Seq<char>
    decreases n,
{
    if n == 0 {
        empty()
    } else {
        flags_columns_text(o, (n - 1) as nat) + (if is_column_write_spec(o, n - 1) {
            fill(FLAGS_COLUMN@, seq![decimal((n - 1) as nat)]) + FLAGS_EDITABLE@
        } else {
            empty()
        })
    }
}

/// The functions that sort the model and tell what can be done with an
/// item.
pub open spec fn sort_and_flags_text(o: ObjectView) -> Seq<char> {
    fill(SORT_AND_FLAGS_OPEN@, seq![o.name, snake_case_text(o.name)]) + flags_columns_text(
        o,
        column_count(o),
    ) + FLAGS_CLOSE@
}

/// Writes the functions that sort the model and tell what can be done
/// with an item.
fn write_sort_and_flags(w: &mut String, o: &Object)
    requires
        snake_ready(),
    ensures
        final(w)@ == old(w)@ + sort_and_flags_text(o@),
{
    broadcast use group_concat;

    emit2(w, SORT_AND_FLAGS_OPEN, o.name.as_str(), snake_case(o.name.as_str()).as_str());
    let columns = o.column_count();
    let ghost w0 = w@;
    let mut col: usize = 0;
    while col < columns
        invariant
            col <= columns,
            w@ == w0 + flags_columns_text(o@, col as nat),
        decreases columns - col,
    {
        if is_column_write(o, col) {
            emit1(w, FLAGS_COLUMN, decimal_string(col).as_str());
            emit(w, FLAGS_EDITABLE);
        }
        col = col + 1;
    }
    emit(w, FLAGS_CLOSE);
}

/// The text with which a role is tested.
pub open spec fn role_test_text(display: Seq<char>, user: Seq<char>, role: Role) -> Seq<char> {
    match role {
        Role::Display(r) => fill(display, seq![role_name_text(r)]),
        Role::User(k) => fill(user, seq![decimal(k)]),
    }
}

/// The tests for the first `n` of the roles.
pub open spec fn role_tests_text(
    display: Seq<char>,
    user: Seq<char>,
    roles: Seq<Role>,
    n: nat,
) -> Seq<char>
    decreases n,
{
    if n == 0 {
        empty()
    } else {
        role_tests_text(display, user, roles, (n - 1) as nat) + role_test_text(
            display,
            user,
            roles[n - 1],
        )
    }
}

/// The tests for all the roles to which the item property at `position`
/// answers in the column.
pub open spec fn claims_text(
    display: Seq<char>,
    user: Seq<char>,
    p: ItemPropertyView,
    column: int,
    position: nat,
) -> Seq<char> {
    role_tests_text(display, user, claims(p, column, position), claims(p, column, position).len())
}

/// Writes the tests for all the roles to which the item property at
/// `position` answers in the column.
fn write_claims(
    w: &mut String,
    display: &str,
    user: &str,
    ip: &ItemProperty,
    col: usize,
    position: usize,
)
    requires
        item_roles_known(ip@),
    ensures
        final(w)@ == old(w)@ + claims_text(display@, user@, ip@, col as int, position as nat),
{
    broadcast use group_concat;

    let ghost c = claims(ip@, col as int, position as nat);
    let ghost w0 = w@;
    let mut k: usize = 0;
    assert(role_tests_text(display@, user@, c, 0) == empty());
    if col < ip.roles.len() {
        let roles = &ip.roles[col];
        assert(column_roles_known(ip@.roles[col as int]));
        while k < roles.len()
            invariant
                k <= roles.len(),
                col < ip.roles.len(),
                roles == &ip.roles[col as int],
                column_roles_known(ip@.roles[col as int]),
                c == claims(ip@, col as int, position as nat),
                w@ == w0 + role_tests_text(display@, user@, c, k as nat),
            decreases roles.len() - k,
        {
            assert(role_known(ip@.roles[col as int][k as int]));
            assert(c[k as int] == Role::Display(roles[k as int]@));
            emit1(w, display, role_name(roles[k].as_str()));
            k = k + 1;
        }
    }
    assert(c.len() == k + 1);
    assert(c[k as int] == Role::User(position as nat));
    emit1(w, user, decimal_string(position).as_str());
}

/// How a C++ function that takes an index names the item for an
/// accessor.
pub open spec fn index_accessor_text(o: ObjectView) -> Seq<char> {
    if o.object_type == ObjectType::List {
        ".row()"@
    } else {
        ""@
    }
}

/// How a C++ function that takes an index names the item for an
/// accessor.
fn index_accessor(o: &Object) -> (r: &'static str)
    ensures
        r@ == index_accessor_text(o@),
{
    if o.object_type == ObjectType::List {
        ".row()"
    } else {
        ""
    }
}

/// The cases of the function `data` for one item property in one column:
/// the roles to which it answers, and the value that is returned.
pub open spec fn data_item_text(o: ObjectView, column: int, position: nat) -> Seq<char> {
    let name = o.item_properties[position as int].0;
    let p = o.item_properties[position as int].1;
    claims_text(DATA_ROLE@, DATA_USER_ROLE@, p, column, position) + fill(
        if p.optional && !simple_is_complex(p.item_property_type) {
            DATA_RETURN@
        } else if p.optional {
            DATA_RETURN_CLEAN@
        } else {
            DATA_RETURN_VALUE@
        },
        seq![name, index_accessor_text(o)],
    )
}

/// The cases for the first `n` item properties in one column.
pub open spec fn data_items_text(o: ObjectView, column: int, n: nat) -> Seq<char>
    decreases n,
{
    if n == 0 {
        empty()
    } else {
        data_items_text(o, column, (n - 1) as nat) + data_item_text(o, column, (n - 1) as nat)
    }
}

/// The cases of the function `data` for the first `n` columns.
pub open spec fn data_columns_text(o: ObjectView, n: nat) -> Seq<char>
    decreases n,
{
    if n == 0 {
        empty()
    } else {
        data_columns_text(o, (n - 1) as nat) + fill(DATA_COLUMN@, seq![decimal((n - 1) as nat)])
            + DATA_SWITCH@ + data_items_text(o, n - 1, o.item_properties.len())
            + DATA_COLUMN_CLOSE@
    }
}

/// Writes the cases for the item properties in one column.
fn write_data_items(w: &mut String, o: &Object, col: usize)
    requires
        roles_ok(o@.item_properties, o@.item_properties.len()),
    ensures
        final(w)@ == old(w)@ + data_items_text(o@, col as int, o@.item_properties.len()),
{
    broadcast use group_concat;

    let ii = index_accessor(o);
    let ghost w0 = w@;
    let mut i: usize = 0;
    while i < o.item_properties.len()
        invariant
            i <= o.item_properties.len(),
            ii@ == index_accessor_text(o@),
            roles_ok(o@.item_properties, o@.item_properties.len()),
            w@ == w0 + data_items_text(o@, col as int, i as nat),
        decreases o.item_properties.len() - i,
    {
        let name = o.item_properties[i].0.as_str();
        let ip = &o.item_properties[i].1;
        assert(item_roles_known(o@.item_properties[i as int].1));
        write_claims(w, DATA_ROLE, DATA_USER_ROLE, ip, col, i);
        if ip.optional && !ip.is_complex() {
            emit2(w, DATA_RETURN, name, ii);
        } else if ip.optional {
            emit2(w, DATA_RETURN_CLEAN, name, ii);
        } else {
            emit2(w, DATA_RETURN_VALUE, name, ii);
        }
        i = i + 1;
    }
}

/// The names of the roles of the first `n` item properties.
pub open spec fn role_names_text(o: ObjectView, n: nat) -> Seq<char>
    decreases n,
{
    if n == 0 {
        empty()
    } else {
        role_names_text(o, (n - 1) as nat) + fill(
            ROLE_NAME_INSERT@,
            seq![decimal((n - 1) as nat), o.item_properties[n - 1].0],
        )
    }
}

/// The functions that return the data of an item, the names of the
/// roles and the headers.
pub open spec fn data_and_roles_text(o: ObjectView) -> Seq<char> {
    fill(DATA_OPEN@, seq![o.name]) + data_columns_text(o, column_count(o)) + fill(
        DATA_CLOSE_ROLE_NAMES_OPEN@,
        seq![o.name],
    ) + role_names_text(o, o.item_properties.len()) + fill(
        ROLE_NAMES_CLOSE_HEADER_DATA@,
        seq![o.name],
    )
}

/// Writes the cases of the function `data` for the columns.
fn write_data_columns(w: &mut String, o: &Object)
    requires
        roles_ok(o@.item_properties, o@.item_properties.len()),
    ensures
        final(w)@ == old(w)@ + data_columns_text(o@, column_count(o@)),
{
    broadcast use group_concat;

    let columns = o.column_count();
    let ghost w0 = w@;
    let mut col: usize = 0;
    while col < columns
        invariant
            col <= columns,
            roles_ok(o@.item_properties, o@.item_properties.len()),
            w@ == w0 + data_columns_text(o@, col as nat),
        decreases columns - col,
    {
        emit1(w, DATA_COLUMN, decimal_string(col).as_str());
        emit(w, DATA_SWITCH);
        write_data_items(w, o, col);
        emit(w, DATA_COLUMN_CLOSE);
        col = col + 1;
    }
}

/// Writes the names of the roles of the item properties.
fn write_role_names(w: &mut String, o: &Object)
    ensures
        final(w)@ == old(w)@ + role_names_text(o@, o@.item_properties.len()),
{
    broadcast use group_concat;

    let ghost w0 = w@;
    let mut i: usize = 0;
    while i < o.item_properties.len()
        invariant
            i <= o.item_properties.len(),
            w@ == w0 + role_names_text(o@, i as nat),
        decreases o.item_properties.len() - i,
    {
        emit2(w, ROLE_NAME_INSERT, decimal_string(i).as_str(), o.item_properties[i].0.as_str());
        i = i + 1;
    }
}

/// Writes the functions that return the data of an item, the names of
/// the roles and the headers.
fn write_data_and_roles(w: &mut String, o: &Object)
    requires
        roles_ok(o@.item_properties, o@.item_properties.len()),
    ensures
        final(w)@ == old(w)@ + data_and_roles_text(o@),
{
    broadcast use group_concat;

    emit1(w, DATA_OPEN, o.name.as_str());
    write_data_columns(w, o);
    emit1(w, DATA_CLOSE_ROLE_NAMES_OPEN, o.name.as_str());
    write_role_names(w, o);
    emit1(w, ROLE_NAMES_CLOSE_HEADER_DATA, o.name.as_str());
}

/// The part of the function `setData` for one item property in one
/// column: nothing where it cannot be written, else the test for the
/// roles to which it answers and the call of its setter.
pub open spec fn set_data_item_text(o: ObjectView, column: int, position: nat) -> Seq<char> {
    let name = o.item_properties[position as int].0;
    let p = o.item_properties[position as int].1;
    let ii = index_accessor_text(o);
    if !p.write {
        empty()
    } else {
        SET_DATA_IF@ + claims_text(SET_DATA_ROLE@, SET_DATA_USER_ROLE@, p, column, position) + (
        if p.optional && !simple_is_complex(p.item_property_type) {
            fill(SET_DATA_RETURN@, seq![upper_initial_text(name), ii])
        } else {
            fill(
                SET_DATA_IF_CONVERT@,
                seq![if p.optional {
                    "!value.isValid() || value.isNull() ||"@
                } else {
                    ""@
                }, simple_name(p.item_property_type)],
            ) + fill(
                SET_DATA_RETURN_CONVERTED@,
                seq![upper_initial_text(name), ii, simple_name(p.item_property_type)],
            ) + SET_DATA_CONVERT_CLOSE@
        }) + SET_DATA_ROLE_CLOSE@
    }
}

/// The parts for the first `n` item properties in one column.
pub open spec fn set_data_items_text(o: ObjectView, column: int, n: nat) -> Seq<char>
    decreases n,
{
    if n == 0 {
        empty()
    } else {
        set_data_items_text(o, column, (n - 1) as nat) + set_data_item_text(
            o,
            column,
            (n - 1) as nat,
        )
    }
}

/// The parts of the function `setData` for the first `n` columns; a
/// column in which nothing can be written has none.
pub open spec fn set_data_columns_text(o: ObjectView, n: nat) -> Seq<char>
    decreases n,
{
    if n == 0 {
        empty()
    } else {
        set_data_columns_text(o, (n - 1) as nat) + (if is_column_write_spec(o, n - 1) {
            fill(SET_DATA_COLUMN@, seq![decimal((n - 1) as nat)]) + set_data_items_text(
                o,
                n - 1,
                o.item_properties.len(),
            ) + SET_DATA_COLUMN_CLOSE@
        } else {
            empty()
        })
    }
}

/// The function `setData`, where an item property can be written.
pub open spec fn set_data_text(o: ObjectView) -> Seq<char> {
    if model_is_writable_spec(o) {
        fill(SET_DATA_OPEN@, seq![o.name]) + set_data_columns_text(o, column_count(o))
            + SET_DATA_CLOSE@
    } else {
        empty()
    }
}

/// Writes the part of the function `setData` for one item property in
/// one column: nothing where it cannot be written, else the test for
/// the roles to which it answers and the call of its setter.
fn write_set_data_item(w: &mut String, o: &Object, col: usize, i: usize)
    requires
        i < o.item_properties.len(),
        roles_ok(o@.item_properties, o@.item_properties.len()),
    ensures
        final(w)@ == old(w)@ + set_data_item_text(o@, col as int, i as nat),
{
    broadcast use group_concat;

    let name = o.item_properties[i].0.as_str();
    let ip = &o.item_properties[i].1;
    assert(item_roles_known(o@.item_properties[i as int].1));
    if !ip.write {
        return ;
    }
    let ii = index_accessor(o);
    emit(w, SET_DATA_IF);
    write_claims(w, SET_DATA_ROLE, SET_DATA_USER_ROLE, ip, col, i);
    if ip.optional && !ip.is_complex() {
        emit2(w, SET_DATA_RETURN, upper_initial(name).as_str(), ii);
    } else {
        let pre = if ip.optional {
            "!value.isValid() || value.isNull() ||"
        } else {
            ""
        };
        emit2(w, SET_DATA_IF_CONVERT, pre, ip.name_of_type());
        emit3(w, SET_DATA_RETURN_CONVERTED, upper_initial(name).as_str(), ii, ip.name_of_type());
        emit(w, SET_DATA_CONVERT_CLOSE);
    }
    emit(w, SET_DATA_ROLE_CLOSE);
}

/// Writes the parts for the item properties in one column.
fn write_set_data_items(w: &mut String, o: &Object, col: usize)
    requires
        roles_ok(o@.item_properties, o@.item_properties.len()),
    ensures
        final(w)@ == old(w)@ + set_data_items_text(o@, col as int, o@.item_properties.len()),
{
    broadcast use group_concat;

    let ghost w0 = w@;
    let mut i: usize = 0;
    while i < o.item_properties.len()
        invariant
            i <= o.item_properties.len(),
            roles_ok(o@.item_properties, o@.item_properties.len()),
            w@ == w0 + set_data_items_text(o@, col as int, i as nat),
        decreases o.item_properties.len() - i,
    {
        write_set_data_item(w, o, col, i);
        i = i + 1;
    }
}

/// Writes the function `setData`, where an item property can be
/// written.
fn write_set_data(w: &mut String, o: &Object)
    requires
        roles_ok(o@.item_properties, o@.item_properties.len()),
    ensures
        final(w)@ == old(w)@ + set_data_text(o@),
{
    broadcast use group_concat;

    if !model_is_writable(o) {
        return ;
    }
    emit1(w, SET_DATA_OPEN, o.name.as_str());
    let columns = o.column_count();
    let ghost w0 = w@;
    let mut col: usize = 0;
    while col < columns
        invariant
            col <= columns,
            roles_ok(o@.item_properties, o@.item_properties.len()),
            w@ == w0 + set_data_columns_text(o@, col as nat),
        decreases columns - col,
    {
        if is_column_write(o, col) {
            emit1(w, SET_DATA_COLUMN, decimal_string(col).as_str());
            write_set_data_items(w, o, col);
            emit(w, SET_DATA_COLUMN_CLOSE);
        }
        col = col + 1;
    }
    emit(w, SET_DATA_CLOSE);
}

/// The C++ code of a list or tree as an item model.
pub open spec fn cpp_model_text(o: ObjectView) -> Seq<char> {
    model_shape_text(o) + sort_and_flags_text(o) + model_getters_setters_text(
        o,
        o.item_properties.len(),
    ) + data_and_roles_text(o) + set_data_text(o)
}

/// Writes the C++ code of a list or tree as an item model.
pub fn write_cpp_model(w: &mut String, o: &Object)
    requires
        snake_ready(),
        roles_ok(o@.item_properties, o@.item_properties.len()),
    ensures
        final(w)@ == old(w)@ + cpp_model_text(o@),
{
    broadcast use group_concat;

    write_model_shape(w, o);
    write_sort_and_flags(w, o);
    write_model_getters_setters(w, o);
    write_data_and_roles(w, o);
    write_set_data(w, o);
}

} // verus!
