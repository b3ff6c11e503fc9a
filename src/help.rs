//! Example literals and usage text synthesized from a method signature.
use vstd::prelude::*;
use vstd::string::*;

use crate::signature::{Argument, MethodSignature};
use crate::suggest::views_of;
use crate::text::{
    concat_text, decimal, decimal_text, has_prefix, join, joined, same_text, starts_with_text,
};

verus! {

/// The families of type tags that example synthesis tells apart.
#[derive(PartialEq, Eq, Structural, Clone, Copy, Debug)]
pub enum TypeKind {
    Text,
    Boolean,
    Integer,
    Float,
    Container,
    Optional,
    Unrecognized,
}

/// The family of a type tag as the service writes it.
pub open spec fn type_kind(tag: Seq<char>) -> TypeKind {
    if tag == "String"@ {
        TypeKind::Text
    } else if tag == "bool"@ {
        TypeKind::Boolean
    } else if tag == "i32"@ || tag == "u32"@ || tag == "i64"@ || tag == "u64"@ || tag == "usize"@ {
        TypeKind::Integer
    } else if tag == "f32"@ || tag == "f64"@ {
        TypeKind::Float
    } else if has_prefix(tag, "Vec<"@) {
        TypeKind::Container
    } else if has_prefix(tag, "Option<"@) {
        TypeKind::Optional
    } else {
        TypeKind::Unrecognized
    }
}

/// Classifies a type tag into the family that decides its example literal.
pub fn classify_type(tag: &str) -> (r: TypeKind)
    ensures
        r == type_kind(tag@),
{
    if same_text(tag, "String") {
        TypeKind::Text
    } else if same_text(tag, "bool") {
        TypeKind::Boolean
    } else if same_text(tag, "i32") || same_text(tag, "u32") || same_text(tag, "i64") || same_text(
        tag,
        "u64",
    ) || same_text(tag, "usize") {
        TypeKind::Integer
    } else if same_text(tag, "f32") || same_text(tag, "f64") {
        TypeKind::Float
    } else if starts_with_text(tag, "Vec<") {
        TypeKind::Container
    } else if starts_with_text(tag, "Option<") {
        TypeKind::Optional
    } else {
        TypeKind::Unrecognized
    }
}

pub open spec fn placeholder(name: Seq<char>) -> Seq<char> {
    "\"example_"@ + name + "\""@
}

/// The example literal shown for an argument of type `tag` named `name`.
pub open spec fn example_value(tag: Seq<char>, name: Seq<char>) -> Seq<char> {
    match type_kind(tag) {
        TypeKind::Boolean => "true"@,
        TypeKind::Integer => "123"@,
        TypeKind::Float => "1.5"@,
        TypeKind::Container => "[]"@,
        TypeKind::Optional => "null"@,
        _ => placeholder(name),
    }
}

/// A JSON literal that fits an argument of type `arg_type` named `arg_name`.
pub fn make_example_value(arg_type: &str, arg_name: &str) -> (r: String)
    ensures
        r@ == example_value(arg_type@, arg_name@),
{
    match classify_type(arg_type) {
        TypeKind::Boolean => String::from_str("true"),
        TypeKind::Integer => String::from_str("123"),
        TypeKind::Float => String::from_str("1.5"),
        TypeKind::Container => String::from_str("[]"),
        TypeKind::Optional => String::from_str("null"),
        _ => {
            let mut s = String::from_str("\"example_");
            s.append(arg_name);
            s.append("\"");
            s
        },
    }
}

pub open spec fn example_values(args: Seq<Argument>) -> Seq<Seq<char>> {
    args.map_values(|a: Argument| example_value(a.type_tag@, a.name@))
}

pub open spec fn object_field(a: Argument) -> Seq<char> {
    "\""@ + a.name@ + "\": "@ + example_value(a.type_tag@, a.name@)
}

pub open spec fn object_fields(args: Seq<Argument>) -> Seq<Seq<char>> {
    args.map_values(|a: Argument| object_field(a))
}

pub open spec fn argument_line(a: Argument) -> Seq<char> {
    "  - "@ + a.name@ + ": "@ + a.type_tag@
}

pub open spec fn mapping_line(i: nat, a: Argument) -> Seq<char> {
    "  ["@ + decimal(i) + "] -> "@ + a.name@ + " ("@ + a.type_tag@ + ")"@
}

pub open spec fn mapping_lines(args: Seq<Argument>) -> Seq<Seq<char>> {
    Seq::new(args.len(), |i: int| mapping_line(i as nat, args[i]))
}

pub open spec fn rpc_prefix(method: Seq<char>) -> Seq<char> {
    "  edamame_cli rpc "@ + method
}

/// The lines that describe the method itself.
pub open spec fn header_lines(sig: MethodSignature) -> Seq<Seq<char>> {
    let args = sig.arguments@;
    seq!["Method: "@ + sig.method_name@, "Return type: "@ + sig.return_type@] + if args.len() > 0 {
        seq!["Arguments:"@] + args.map_values(|a: Argument| argument_line(a))
    } else {
        seq!["Arguments: None"@]
    }
}

/// The lines that show how to call the method.
pub open spec fn usage_lines(sig: MethodSignature) -> Seq<Seq<char>> {
    let args = sig.arguments@;
    let m = sig.method_name@;
    seq![Seq::<char>::empty(), "Usage examples:"@] + if args.len() > 0 {
        let array_form = rpc_prefix(m) + " '["@ + joined(example_values(args), ", "@) + "]'"@;
        let object_form = rpc_prefix(m) + " '{"@ + joined(object_fields(args), ", "@) + "}'"@;
        seq![
            array_form,
            array_form + " --pretty"@,
            object_form,
            object_form + " --pretty"@,
            Seq::<char>::empty(),
            "Parameter mapping (array form):"@,
        ] + mapping_lines(args) + seq![
            Seq::<char>::empty(),
            "Notes:"@,
            "  - You can pass arguments as a JSON array of values or a single JSON object."@,
            "  - In array form, each element must be a valid JSON literal of the expected type."@,
            "  - In object form, use the exact argument names shown above as keys."@,
        ]
    } else {
        seq![rpc_prefix(m), rpc_prefix(m) + " --pretty"@]
    }
}

/// The full help text for a method, line by line.
pub open spec fn help_lines(sig: MethodSignature) -> Seq<Seq<char>> {
    header_lines(sig) + usage_lines(sig)
}

/// Whether two signatures agree in content: method name, return type, and each
/// argument's name and type tag, in order.
pub open spec fn same_content(a: MethodSignature, b: MethodSignature) -> bool {
    &&& a.method_name@ == b.method_name@
    &&& a.return_type@ == b.return_type@
    &&& a.arguments@.len() == b.arguments@.len()
    &&& forall|i: int|
        0 <= i < a.arguments@.len() ==> (#[trigger] a.arguments@[i]).name@ == b.arguments@[i].name@
            && a.arguments@[i].type_tag@ == b.arguments@[i].type_tag@
}

/// Help synthesis is deterministic: signatures with the same content get character for
/// character the same help text.
pub proof fn lemma_help_deterministic(a: MethodSignature, b: MethodSignature)
    requires
        same_content(a, b),
    ensures
        help_lines(a) == help_lines(b),
{
    let x = a.arguments@;
    let y = b.arguments@;
    assert(forall|i: int| 0 <= i < x.len() ==> x[i].name@ == y[i].name@);
    assert(x.map_values(|arg: Argument| argument_line(arg)) =~= y.map_values(
        |arg: Argument| argument_line(arg),
    ));
    assert(example_values(x) =~= example_values(y));
    assert(object_fields(x) =~= object_fields(y));
    assert(mapping_lines(x) =~= mapping_lines(y));
    assert(header_lines(a) =~= header_lines(b));
    assert(usage_lines(a) =~= usage_lines(b));
}

fn text_line(s: &str) -> (r: String)
    ensures
        r@ == s@,
{
    String::from_str(s)
}

fn render_header(sig: &MethodSignature) -> (r: Vec<String>)
    ensures
        views_of(r@) == header_lines(*sig),
{
    let ghost args = sig.arguments@;
    let mut lines: Vec<String> = Vec::new();
    lines.push(concat_text("Method: ", sig.method_name.as_str()));
    lines.push(concat_text("Return type: ", sig.return_type.as_str()));
    let ghost top = seq!["Method: "@ + sig.method_name@, "Return type: "@ + sig.return_type@];
    assert(views_of(lines@) =~= top);
    if sig.arguments.len() > 0 {
        lines.push(text_line("Arguments:"));
        let ghost start = top + seq!["Arguments:"@];
        assert(views_of(lines@) =~= start);
        let mut i: usize = 0;
        while i < sig.arguments.len()
            invariant
                args == sig.arguments@,
                i <= args.len(),
                views_of(lines@) == start + args.subrange(0, i as int).map_values(
                    |a: Argument| argument_line(a),
                ),
            decreases sig.arguments.len() - i,
        {
            let a = &sig.arguments[i];
            let mut s = String::from_str("  - ");
            s.append(a.name.as_str());
            s.append(": ");
            s.append(a.type_tag.as_str());
            let ghost before = lines@;
            lines.push(s);
            assert(views_of(lines@) =~= views_of(before).push(s@));
            assert(args.subrange(0, i + 1).map_values(|a: Argument| argument_line(a))
                =~= args.subrange(0, i as int).map_values(|a: Argument| argument_line(a)).push(
                argument_line(args[i as int]),
            ));
            i = i + 1;
        }
        assert(args.subrange(0, args.len() as int) =~= args);
    } else {
        lines.push(text_line("Arguments: None"));
    }
    assert(views_of(lines@) =~= header_lines(*sig));
    lines
}

fn example_list(args: &Vec<Argument>, as_fields: bool) -> (r: Vec<String>)
    ensures
        as_fields ==> views_of(r@) == object_fields(args@),
        !as_fields ==> views_of(r@) == example_values(args@),
{
    let mut r: Vec<String> = Vec::new();
    let mut i: usize = 0;
    while i < args.len()
        invariant
            i <= args@.len(),
            r@.len() == i,
            forall|k: int|
                0 <= k < i ==> #[trigger] r@[k]@ == if as_fields {
                    object_field(args@[k])
                } else {
                    example_value(args@[k].type_tag@, args@[k].name@)
                },
        decreases args.len() - i,
    {
        let a = &args[i];
        let value = make_example_value(a.type_tag.as_str(), a.name.as_str());
        if as_fields {
            let mut s = String::from_str("\"");
            s.append(a.name.as_str());
            s.append("\": ");
            s.append(value.as_str());
            r.push(s);
        } else {
            r.push(value);
        }
        i = i + 1;
    }
    assert(as_fields ==> views_of(r@) =~= object_fields(args@));
    assert(!as_fields ==> views_of(r@) =~= example_values(args@));
    r
}

fn call_line(method: &str, open: &str, body: &str, close: &str) -> (r: String)
    ensures
        r@ == rpc_prefix(method@) + open@ + body@ + close@,
{
    let mut s = String::from_str("  edamame_cli rpc ");
    s.append(method);
    s.append(open);
    s.append(body);
    s.append(close);
    s
}

fn render_usage(sig: &MethodSignature) -> (r: Vec<String>)
    ensures
        views_of(r@) == usage_lines(*sig),
{
    let ghost args = sig.arguments@;
    let m = sig.method_name.as_str();
    let mut lines: Vec<String> = Vec::new();
    lines.push(String::new());
    lines.push(text_line("Usage examples:"));
    if sig.arguments.len() > 0 {
        let value_list = example_list(&sig.arguments, false);
        let field_list = example_list(&sig.arguments, true);
        let values = join(&value_list, ", ");
        let fields = join(&field_list, ", ");
        let array_form = call_line(m, " '[", values.as_str(), "]'");
        let object_form = call_line(m, " '{", fields.as_str(), "}'");
        lines.push(array_form.clone());
        lines.push(concat_text(array_form.as_str(), " --pretty"));
        lines.push(object_form.clone());
        lines.push(concat_text(object_form.as_str(), " --pretty"));
        lines.push(String::new());
        lines.push(text_line("Parameter mapping (array form):"));
        let ghost start = seq![
            Seq::<char>::empty(),
            "Usage examples:"@,
            array_form@,
            array_form@ + " --pretty"@,
            object_form@,
            object_form@ + " --pretty"@,
            Seq::<char>::empty(),
            "Parameter mapping (array form):"@,
        ];
        assert(views_of(lines@) =~= start);
        let mut i: usize = 0;
        while i < sig.arguments.len()
            invariant
                args == sig.arguments@,
                i <= args.len(),
                views_of(lines@) == start + mapping_lines(args).subrange(0, i as int),
            decreases sig.arguments.len() - i,
        {
            let a = &sig.arguments[i];
            let mut s = String::from_str("  [");
            let index = decimal_text(i);
            s.append(index.as_str());
            s.append("] -> ");
            s.append(a.name.as_str());
            s.append(" (");
            s.append(a.type_tag.as_str());
            s.append(")");
            let ghost before = lines@;
            lines.push(s);
            assert(views_of(lines@) =~= views_of(before).push(s@));
            assert(mapping_lines(args).subrange(0, i + 1) =~= mapping_lines(args).subrange(
                0,
                i as int,
            ).push(mapping_line(i as nat, args[i as int])));
            i = i + 1;
        }
        assert(mapping_lines(args).subrange(0, args.len() as int) =~= mapping_lines(args));
        lines.push(String::new());
        lines.push(text_line("Notes:"));
        lines.push(
            text_line(
                "  - You can pass arguments as a JSON array of values or a single JSON object.",
            ),
        );
        lines.push(
            text_line(
                "  - In array form, each element must be a valid JSON literal of the expected type.",
            ),
        );
        lines.push(text_line("  - In object form, use the exact argument names shown above as keys."));
        let ghost tail = seq![
            Seq::<char>::empty(),
            "Notes:"@,
            "  - You can pass arguments as a JSON array of values or a single JSON object."@,
            "  - In array form, each element must be a valid JSON literal of the expected type."@,
            "  - In object form, use the exact argument names shown above as keys."@,
        ];
        assert(views_of(lines@) =~= start + mapping_lines(args) + tail);
        assert(array_form@ == rpc_prefix(m@) + " '["@ + joined(example_values(args), ", "@) + "]'"@);
        assert(object_form@ == rpc_prefix(m@) + " '{"@ + joined(object_fields(args), ", "@) + "}'"@);
    } else {
        let plain = concat_text("  edamame_cli rpc ", m);
        lines.push(plain.clone());
        lines.push(concat_text(plain.as_str(), " --pretty"));
    }
    assert(views_of(lines@) =~= usage_lines(*sig));
    lines
}

/// The help text for a method: its signature, usage examples in array and object form
/// with and without pretty printing, and, where it has arguments, the position of each.
pub fn render_help(sig: &MethodSignature) -> (r: Vec<String>)
    ensures
        views_of(r@) == help_lines(*sig),
{
    let mut lines = render_header(sig);
    let mut usage = render_usage(sig);
    let ghost h = lines@;
    let ghost u = usage@;
    lines.append(&mut usage);
    assert(views_of(lines@) =~= views_of(h) + views_of(u));
    lines
}

} // verus!
