//! Example payloads and OpenAPI schemas of a sensor's fields.
use crate::apidoc::{
    inline_schema, object_builder, schema_of, with_property, with_type, ObjectModel,
    SchemaKind, SchemaModel,
};
use crate::driver::{field_models, FieldDescriptor, FieldModel};
use crate::json::{
    boolean, entries, float, integer, integer_value, json, null, numeric, object, text,
    whole_float, Json, NumberModel,
};
use crate::text::{
    decimal_is_unique, decimal_reads_back, decimal_text, digit, is_decimal, same_text,
};
use serde_json::Value;
use utoipa::openapi::schema::{ObjectBuilder, Schema};
use utoipa::openapi::RefOr;
use vstd::prelude::*;

verus! {

/// What kind of value a field of a Rust type holds.
#[derive(Debug, Clone, Copy, PartialEq, Eq, Structural)]
pub enum FieldKind {
    Float,
    Integer,
    Boolean,
    Text,
    Unknown,
}

/// The kind of value that a Rust type's name stands for.
pub open spec fn field_kind(rust_type: Seq<char>) -> FieldKind {
    if rust_type == "f64"@ || rust_type == "f32"@ {
        FieldKind::Float
    } else if rust_type == "u8"@ || rust_type == "u16"@ || rust_type == "u32"@ || rust_type
        == "u64"@ || rust_type == "i8"@ || rust_type == "i16"@ || rust_type == "i32"@ || rust_type
        == "i64"@ {
        FieldKind::Integer
    } else if rust_type == "bool"@ {
        FieldKind::Boolean
    } else if rust_type == "String"@ || rust_type == "str"@ {
        FieldKind::Text
    } else {
        FieldKind::Unknown
    }
}

/// The kind of value that a Rust type's name stands for.
pub fn classify(rust_type: &str) -> (kind: FieldKind)
    ensures
        kind == field_kind(rust_type@),
{
    if same_text(rust_type, "f64") || same_text(rust_type, "f32") {
        FieldKind::Float
    } else if same_text(rust_type, "u8") || same_text(rust_type, "u16") || same_text(
        rust_type,
        "u32",
    ) || same_text(rust_type, "u64") || same_text(rust_type, "i8") || same_text(rust_type, "i16")
        || same_text(rust_type, "i32") || same_text(rust_type, "i64") {
        FieldKind::Integer
    } else if same_text(rust_type, "bool") {
        FieldKind::Boolean
    } else if same_text(rust_type, "String") || same_text(rust_type, "str") {
        FieldKind::Text
    } else {
        FieldKind::Unknown
    }
}

/// The example value of a field of that kind.
pub open spec fn example_value(kind: FieldKind) -> Json {
    match kind {
        FieldKind::Float => Json::Number(whole_float(0)),
        FieldKind::Integer => integer_value(0),
        FieldKind::Boolean => Json::Bool(false),
        FieldKind::Text => Json::Text(""@),
        FieldKind::Unknown => Json::Null,
    }
}

/// One example value under the name of each field; of fields that share a name,
/// the last one gives the value.
pub open spec fn example_entries(fields: Seq<FieldModel>) -> Map<Seq<char>, Json>
    decreases fields.len(),
{
    if fields.len() == 0 {
        Map::empty()
    } else {
        example_entries(fields.drop_last()).insert(
            fields.last().name,
            example_value(field_kind(fields.last().rust_type)),
        )
    }
}

/// The example payload of a schema.
pub open spec fn example_payload(fields: Seq<FieldModel>) -> Json {
    Json::Object(example_entries(fields))
}

/// An object with an example value for each field of a schema.
pub fn build_example_payload(schema: &[FieldDescriptor]) -> (payload: Value)
    ensures
        json(payload) == example_payload(field_models(schema@)),
        exemplifies(json(payload), field_models(schema@)),
{
    proof {
        example_shows_each_field(field_models(schema@));
    }
    let mut map = serde_json::Map::<String, Value>::new();
    let ghost models = field_models(schema@);
    let mut i: usize = 0;
    assert(models.take(0) =~= Seq::empty());
    while i < schema.len()
        invariant
            i <= schema.len(),
            models == field_models(schema@),
            entries(map) == example_entries(models.take(i as int)),
        decreases schema.len() - i,
    {
        let field = &schema[i];
        let example = match classify(field.rust_type.as_str()) {
            FieldKind::Float => numeric(float(0)),
            FieldKind::Integer => integer(0),
            FieldKind::Boolean => boolean(false),
            FieldKind::Text => text(""),
            FieldKind::Unknown => null(),
        };
        map.insert(field.name.clone(), example);
        proof {
            let taken = models.take(i + 1);
            assert(taken.drop_last() =~= models.take(i as int));
            assert(taken.last() == schema@[i as int]@);
        }
        i += 1;
    }
    assert(models.take(i as int) =~= models);
    object(map)
}

/// The schema type of a field of that kind; what is not known is an object.
pub open spec fn schema_kind(kind: FieldKind) -> SchemaKind {
    match kind {
        FieldKind::Float => SchemaKind::Number,
        FieldKind::Integer => SchemaKind::Integer,
        FieldKind::Boolean => SchemaKind::Boolean,
        FieldKind::Text => SchemaKind::Text,
        FieldKind::Unknown => SchemaKind::Object,
    }
}

/// The schema of a field of that Rust type.
pub open spec fn type_schema(rust_type: Seq<char>) -> SchemaModel {
    SchemaModel::Inline {
        kind: schema_kind(field_kind(rust_type)),
        properties: Map::empty(),
        required: Seq::empty(),
        bare: true,
    }
}

/// The schema of a field of that Rust type.
pub fn type_to_schema(rust_type: &str) -> (component: RefOr<Schema>)
    ensures
        schema_of(component) == type_schema(rust_type@),
        describes_type(schema_of(component), rust_type@),
{
    let obj = match classify(rust_type) {
        FieldKind::Float => with_type(ObjectBuilder::new(), SchemaKind::Number),
        FieldKind::Integer => with_type(ObjectBuilder::new(), SchemaKind::Integer),
        FieldKind::Boolean => with_type(ObjectBuilder::new(), SchemaKind::Boolean),
        FieldKind::Text => with_type(ObjectBuilder::new(), SchemaKind::Text),
        FieldKind::Unknown => ObjectBuilder::new(),
    };
    inline_schema(obj.build())
}

/// One property under the name of each field; of fields that share a name, the
/// last one gives the schema.
pub open spec fn field_properties(fields: Seq<FieldModel>) -> Map<Seq<char>, SchemaModel>
    decreases fields.len(),
{
    if fields.len() == 0 {
        Map::empty()
    } else {
        field_properties(fields.drop_last()).insert(
            fields.last().name,
            type_schema(fields.last().rust_type),
        )
    }
}

/// The object schema of a list of fields, none of which is required.
pub open spec fn fields_schema(fields: Seq<FieldModel>) -> SchemaModel {
    SchemaModel::Inline {
        kind: SchemaKind::Object,
        properties: field_properties(fields),
        required: Seq::empty(),
        bare: true,
    }
}

/// The object schema of a list of fields.
fn object_of_fields(fields: &[FieldDescriptor]) -> (component: RefOr<Schema>)
    ensures
        schema_of(component) == fields_schema(field_models(fields@)),
{
    let mut obj = ObjectBuilder::new();
    let ghost models = field_models(fields@);
    let mut i: usize = 0;
    assert(models.take(0) =~= Seq::empty());
    while i < fields.len()
        invariant
            i <= fields.len(),
            models == field_models(fields@),
            object_builder(obj) == (ObjectModel {
                kind: SchemaKind::Object,
                properties: field_properties(models.take(i as int)),
                required: Seq::empty(),
                bare: true,
            }),
        decreases fields.len() - i,
    {
        let field = &fields[i];
        obj = with_property(obj, field.name.as_str(), type_to_schema(field.rust_type.as_str()));
        proof {
            let taken = models.take(i + 1);
            assert(taken.drop_last() =~= models.take(i as int));
            assert(taken.last() == fields@[i as int]@);
        }
        i += 1;
    }
    assert(models.take(i as int) =~= models);
    inline_schema(obj.build())
}

/// The schema of a sensor's data.
pub fn build_data_schema(fields: &[FieldDescriptor]) -> (component: RefOr<Schema>)
    ensures
        schema_of(component) == fields_schema(field_models(fields@)),
        describes(schema_of(component), field_models(fields@)),
{
    proof {
        schema_shows_each_field(field_models(fields@));
    }
    object_of_fields(fields)
}

/// The schema of a sensor's command.
pub fn build_command_schema(fields: &[FieldDescriptor]) -> (component: RefOr<Schema>)
    ensures
        schema_of(component) == fields_schema(field_models(fields@)),
        describes(schema_of(component), field_models(fields@)),
{
    proof {
        schema_shows_each_field(field_models(fields@));
    }
    object_of_fields(fields)
}

/// Whether a value is of the type that a schema asks for.
pub open spec fn has_kind(value: Json, kind: SchemaKind) -> bool {
    match kind {
        SchemaKind::Object => value is Object,
        SchemaKind::Number => value is Number,
        SchemaKind::Integer => value matches Json::Number(number) && number is Integer,
        SchemaKind::Boolean => value is Bool,
        SchemaKind::Text => value is Text,
    }
}

/// Whether a value is what a schema describes. What a reference points to is not
/// looked at.
pub open spec fn conforms(value: Json, shape: SchemaModel) -> bool
    decreases shape,
{
    match shape {
        SchemaModel::Reference { location, bare } => true,
        SchemaModel::Inline { kind, properties, required, bare } => {
            &&& has_kind(value, kind)
            &&& value matches Json::Object(members) ==> forall|i: int|
                0 <= i < required.len() ==> members.contains_key(#[trigger] required[i])
            &&& value matches Json::Object(members) ==> forall|name: Seq<char>|
                #![trigger members[name]]
                members.contains_key(name) && properties.contains_key(name) ==> conforms(
                    members[name],
                    properties[name],
                )
        },
    }
}

/// Whether no later field has the name of the field at `i`.
pub open spec fn gives_the_value(fields: Seq<FieldModel>, i: int) -> bool {
    &&& 0 <= i < fields.len()
    &&& forall|j: int| i < j < fields.len() ==> #[trigger] fields[j].name != fields[i].name
}

/// Every entry of an example, and every property of a schema, comes from the last
/// field of its name.
pub proof fn last_field_gives_the_value(fields: Seq<FieldModel>, name: Seq<char>)
    ensures
        example_entries(fields).contains_key(name) <==> exists|i: int|
            0 <= i < fields.len() && #[trigger] fields[i].name == name,
        field_properties(fields).contains_key(name) <==> exists|i: int|
            0 <= i < fields.len() && #[trigger] fields[i].name == name,
        example_entries(fields).contains_key(name) ==> exists|i: int|
            {
                &&& #[trigger] gives_the_value(fields, i)
                &&& fields[i].name == name
                &&& example_entries(fields)[name] == example_value(field_kind(fields[i].rust_type))
                &&& field_properties(fields)[name] == type_schema(fields[i].rust_type)
            },
    decreases fields.len(),
{
    if fields.len() > 0 {
        let before = fields.drop_last();
        let end = fields.len() - 1;
        last_field_gives_the_value(before, name);
        assert(fields[end].name == fields.last().name);
        if name == fields.last().name {
            assert(gives_the_value(fields, end));
        } else if example_entries(before).contains_key(name) {
            let i = choose|i: int|
                {
                    &&& #[trigger] gives_the_value(before, i)
                    &&& before[i].name == name
                    &&& example_entries(before)[name] == example_value(
                        field_kind(before[i].rust_type),
                    )
                    &&& field_properties(before)[name] == type_schema(before[i].rust_type)
                };
            assert(fields[i] == before[i]);
            assert forall|j: int| i < j < fields.len() implies #[trigger] fields[j].name
                != fields[i].name by {
                if j < end {
                    assert(before[j] == fields[j]);
                }
            }
            assert(gives_the_value(fields, i));
        } else {
            assert forall|i: int| 0 <= i < fields.len() implies #[trigger] fields[i].name
                != name by {
                if i < end {
                    assert(before[i] == fields[i]);
                }
            }
        }
    }
}

/// Whether a type's name is this letter followed by a width in bits.
pub open spec fn has_width(rust_type: Seq<char>, letter: char, bits: nat) -> bool {
    &&& rust_type.len() > 0
    &&& rust_type[0] == letter
    &&& is_decimal(rust_type.skip(1), bits)
}

/// Whether a type's name is that of an integer type of 8 to 64 bits.
pub open spec fn is_integer_type(rust_type: Seq<char>) -> bool {
    exists|letter: char, bits: nat| #[trigger]
        has_width(rust_type, letter, bits) && (letter == 'u' || letter == 'i') && (bits == 8
            || bits == 16 || bits == 32 || bits == 64)
}

/// The name of a type with a width is the letter and the width in print.
proof fn width_is_printed(rust_type: Seq<char>, letter: char, bits: nat)
    ensures
        has_width(rust_type, letter, bits) <==> rust_type == seq![letter] + decimal_text(bits),
{
    let name = seq![letter] + decimal_text(bits);
    decimal_reads_back(bits);
    assert(name.skip(1) =~= decimal_text(bits));
    if has_width(rust_type, letter, bits) {
        decimal_is_unique(rust_type.skip(1), bits);
        assert(rust_type =~= name);
    }
}

/// The widths of the numeric types in print.
proof fn printed_widths()
    ensures
        "f64"@ == seq!['f'] + decimal_text(64),
        "f32"@ == seq!['f'] + decimal_text(32),
        "u8"@ == seq!['u'] + decimal_text(8),
        "u16"@ == seq!['u'] + decimal_text(16),
        "u32"@ == seq!['u'] + decimal_text(32),
        "u64"@ == seq!['u'] + decimal_text(64),
        "i8"@ == seq!['i'] + decimal_text(8),
        "i16"@ == seq!['i'] + decimal_text(16),
        "i32"@ == seq!['i'] + decimal_text(32),
        "i64"@ == seq!['i'] + decimal_text(64),
{
    reveal_strlit("f64");
    reveal_strlit("f32");
    reveal_strlit("u8");
    reveal_strlit("u16");
    reveal_strlit("u32");
    reveal_strlit("u64");
    reveal_strlit("i8");
    reveal_strlit("i16");
    reveal_strlit("i32");
    reveal_strlit("i64");
    reveal_strlit("1");
    reveal_strlit("2");
    reveal_strlit("3");
    reveal_strlit("4");
    reveal_strlit("6");
    reveal_strlit("8");
    reveal_with_fuel(decimal_text, 2);
    assert(decimal_text(8) == digit(8));
    assert(decimal_text(16) == digit(1) + digit(6));
    assert(decimal_text(32) == digit(3) + digit(2));
    assert(decimal_text(64) == digit(6) + digit(4));
    assert("f64"@ =~= seq!['f'] + decimal_text(64));
    assert("f32"@ =~= seq!['f'] + decimal_text(32));
    assert("u8"@ =~= seq!['u'] + decimal_text(8));
    assert("u16"@ =~= seq!['u'] + decimal_text(16));
    assert("u32"@ =~= seq!['u'] + decimal_text(32));
    assert("u64"@ =~= seq!['u'] + decimal_text(64));
    assert("i8"@ =~= seq!['i'] + decimal_text(8));
    assert("i16"@ =~= seq!['i'] + decimal_text(16));
    assert("i32"@ =~= seq!['i'] + decimal_text(32));
    assert("i64"@ =~= seq!['i'] + decimal_text(64));
}

/// The type names that the drivers use have the widths that they say.
pub proof fn type_names_have_widths()
    ensures
        has_width("f64"@, 'f', 64),
        has_width("u8"@, 'u', 8),
        has_width("u16"@, 'u', 16),
{
    printed_widths();
    width_is_printed("f64"@, 'f', 64);
    width_is_printed("u8"@, 'u', 8);
    width_is_printed("u16"@, 'u', 16);
}

/// The kind of a field follows from its type's name: `f` with 32 or 64 bits is a float,
/// `u` or `i` with 8, 16, 32 or 64 bits an integer, and no other name is a number.
pub proof fn kind_follows_the_type(rust_type: Seq<char>)
    ensures
        field_kind(rust_type) is Float <==> has_width(rust_type, 'f', 32) || has_width(
            rust_type,
            'f',
            64,
        ),
        field_kind(rust_type) is Integer <==> is_integer_type(rust_type),
        field_kind(rust_type) is Boolean <==> rust_type == "bool"@,
        field_kind(rust_type) is Text <==> rust_type == "String"@ || rust_type == "str"@,
{
    printed_widths();
    width_is_printed(rust_type, 'f', 32);
    width_is_printed(rust_type, 'f', 64);
    width_is_printed(rust_type, 'u', 8);
    width_is_printed(rust_type, 'u', 16);
    width_is_printed(rust_type, 'u', 32);
    width_is_printed(rust_type, 'u', 64);
    width_is_printed(rust_type, 'i', 8);
    width_is_printed(rust_type, 'i', 16);
    width_is_printed(rust_type, 'i', 32);
    width_is_printed(rust_type, 'i', 64);
    reveal_strlit("bool");
    reveal_strlit("String");
    reveal_strlit("str");
    assert("bool"@[0] == 'b' && "String"@[0] == 'S' && "str"@[0] == 's');
    assert((seq!['f'] + decimal_text(32))[0] == 'f');
    assert((seq!['f'] + decimal_text(64))[0] == 'f');
    assert((seq!['u'] + decimal_text(8))[0] == 'u');
    assert((seq!['u'] + decimal_text(16))[0] == 'u');
    assert((seq!['u'] + decimal_text(32))[0] == 'u');
    assert((seq!['u'] + decimal_text(64))[0] == 'u');
    assert((seq!['i'] + decimal_text(8))[0] == 'i');
    assert((seq!['i'] + decimal_text(16))[0] == 'i');
    assert((seq!['i'] + decimal_text(32))[0] == 'i');
    assert((seq!['i'] + decimal_text(64))[0] == 'i');
    if field_kind(rust_type) is Integer {
        assert(has_width(rust_type, 'u', 8) || has_width(rust_type, 'u', 16) || has_width(
            rust_type,
            'u',
            32,
        ) || has_width(rust_type, 'u', 64) || has_width(rust_type, 'i', 8) || has_width(
            rust_type,
            'i',
            16,
        ) || has_width(rust_type, 'i', 32) || has_width(rust_type, 'i', 64));
    }
}

/// Whether a field of that name is among these.
pub open spec fn has_field(fields: Seq<FieldModel>, name: Seq<char>) -> bool {
    exists|i: int| 0 <= i < fields.len() && #[trigger] fields[i].name == name
}

/// Whether a schema is that of a value of a Rust type: the JSON type alone.
pub open spec fn describes_type(shape: SchemaModel, rust_type: Seq<char>) -> bool {
    shape matches SchemaModel::Inline { kind, properties, required, bare } && {
        &&& kind is Number <==> field_kind(rust_type) is Float
        &&& kind is Integer <==> field_kind(rust_type) is Integer
        &&& kind is Boolean <==> field_kind(rust_type) is Boolean
        &&& kind is Text <==> field_kind(rust_type) is Text
        &&& properties == Map::<Seq<char>, SchemaModel>::empty()
        &&& required.len() == 0
        &&& bare
    }
}

/// Whether a schema is that of an object with these fields: a property under the name of
/// each, of the JSON type of the last field of that name, and none of them required.
pub open spec fn describes(shape: SchemaModel, fields: Seq<FieldModel>) -> bool {
    shape matches SchemaModel::Inline { kind, properties, required, bare } && {
        &&& kind is Object
        &&& required.len() == 0
        &&& bare
        &&& forall|name: Seq<char>| #[trigger]
            properties.contains_key(name) <==> has_field(fields, name)
        &&& forall|i: int| #[trigger]
            gives_the_value(fields, i) ==> describes_type(
                properties[fields[i].name],
                fields[i].rust_type,
            )
    }
}

/// Whether a value is the example of a Rust type: zero, false, the empty text, or null
/// where the type is not known.
pub open spec fn exemplifies_type(value: Json, rust_type: Seq<char>) -> bool {
    match field_kind(rust_type) {
        FieldKind::Float => value matches Json::Number(number) && number
            == (NumberModel::Float { numerator: 0, denominator: 1 }),
        FieldKind::Integer => value matches Json::Number(number) && number
            == NumberModel::Integer(0),
        FieldKind::Boolean => value == Json::Bool(false),
        FieldKind::Text => value matches Json::Text(letters) && letters.len() == 0,
        FieldKind::Unknown => value is Null,
    }
}

/// Whether a value is an example of an object with these fields: an entry under the name
/// of each and no other, with the example of the last field of that name.
pub open spec fn exemplifies(example: Json, fields: Seq<FieldModel>) -> bool {
    example matches Json::Object(members) && {
        &&& forall|name: Seq<char>| #[trigger]
            members.contains_key(name) <==> has_field(fields, name)
        &&& forall|i: int| #[trigger]
            gives_the_value(fields, i) ==> exemplifies_type(
                members[fields[i].name],
                fields[i].rust_type,
            )
    }
}

/// Of fields that share a name, one gives the value.
proof fn one_field_gives_the_value(fields: Seq<FieldModel>, i: int, j: int)
    requires
        gives_the_value(fields, i),
        gives_the_value(fields, j),
        fields[i].name == fields[j].name,
    ensures
        i == j,
{
    if i < j {
        assert(fields[j].name != fields[i].name);
    } else if j < i {
        assert(fields[i].name != fields[j].name);
    }
}

/// The example payload of some fields is an example of an object with these fields.
pub proof fn example_shows_each_field(fields: Seq<FieldModel>)
    ensures
        exemplifies(example_payload(fields), fields),
{
    reveal_strlit("");
    let members = example_entries(fields);
    assert forall|name: Seq<char>| #[trigger] members.contains_key(name) <==> has_field(
        fields,
        name,
    ) by {
        last_field_gives_the_value(fields, name);
    }
    assert forall|i: int| #[trigger] gives_the_value(fields, i) implies exemplifies_type(
        members[fields[i].name],
        fields[i].rust_type,
    ) by {
        let name = fields[i].name;
        last_field_gives_the_value(fields, name);
        let j = choose|j: int|
            {
                &&& #[trigger] gives_the_value(fields, j)
                &&& fields[j].name == name
                &&& members[name] == example_value(field_kind(fields[j].rust_type))
                &&& field_properties(fields)[name] == type_schema(fields[j].rust_type)
            };
        one_field_gives_the_value(fields, i, j);
    }
}

/// The object schema of some fields is that of an object with these fields.
pub proof fn schema_shows_each_field(fields: Seq<FieldModel>)
    ensures
        describes(fields_schema(fields), fields),
{
    let properties = field_properties(fields);
    assert forall|name: Seq<char>| #[trigger] properties.contains_key(name) <==> has_field(
        fields,
        name,
    ) by {
        last_field_gives_the_value(fields, name);
    }
    assert forall|i: int| #[trigger] gives_the_value(fields, i) implies describes_type(
        properties[fields[i].name],
        fields[i].rust_type,
    ) by {
        let name = fields[i].name;
        last_field_gives_the_value(fields, name);
        let j = choose|j: int|
            {
                &&& #[trigger] gives_the_value(fields, j)
                &&& fields[j].name == name
                &&& example_entries(fields)[name] == example_value(
                    field_kind(fields[j].rust_type),
                )
                &&& properties[name] == type_schema(fields[j].rust_type)
            };
        one_field_gives_the_value(fields, i, j);
    }
}

/// The example payload of a schema is what the OpenAPI schema of the same fields
/// describes, with an entry for each property and no other, as long as the type of
/// each field is known.
pub proof fn example_conforms_to_schema(fields: Seq<FieldModel>)
    requires
        forall|i: int| #[trigger]
            gives_the_value(fields, i) ==> field_kind(fields[i].rust_type) != FieldKind::Unknown,
    ensures
        conforms(example_payload(fields), fields_schema(fields)),
        example_entries(fields).dom() == field_properties(fields).dom(),
{
    let members = example_entries(fields);
    let properties = field_properties(fields);
    assert forall|name: Seq<char>| members.contains_key(name) && properties.contains_key(
        name,
    ) implies conforms(#[trigger] members[name], properties[name]) by {
        last_field_gives_the_value(fields, name);
        reveal_with_fuel(conforms, 2);
    }
    assert forall|name: Seq<char>| members.dom().contains(name) <==> properties.dom().contains(
        name,
    ) by {
        last_field_gives_the_value(fields, name);
    }
    assert(members.dom() =~= properties.dom());
}

} // verus!
