//! The names that module references are drawn from: attributes of the
//! modules of a standard library, one to a line, the module before the
//! first dot and the attribute behind it.

use vstd::prelude::*;
use vstd::string::StringSliceAdditionalSpecFns;
use crate::source::{EntropySource, GenerationSource, SourceView};
use crate::wire::push_all;

verus! {

/// The first part of the list.
pub open spec fn first_lines() -> Seq<&'static str> {
    seq![
        "builtins.object",
        "builtins.dict",
        "builtins.list",
        "builtins.set",
        "builtins.frozenset",
        "builtins.tuple",
        "builtins.int",
        "builtins.float",
        "builtins.str",
        "builtins.bytes",
        "builtins.bytearray",
        "builtins.complex",
        "builtins.range",
        "builtins.slice",
    ]
}

fn push_first_lines(lines: &mut Vec<&'static str>)
    ensures
        final(lines)@ == old(lines)@ + first_lines(),
{
    lines.push("builtins.object");
    lines.push("builtins.dict");
    lines.push("builtins.list");
    lines.push("builtins.set");
    lines.push("builtins.frozenset");
    lines.push("builtins.tuple");
    lines.push("builtins.int");
    lines.push("builtins.float");
    lines.push("builtins.str");
    lines.push("builtins.bytes");
    lines.push("builtins.bytearray");
    lines.push("builtins.complex");
    lines.push("builtins.range");
    lines.push("builtins.slice");
    assert(lines@ =~= old(lines)@ + first_lines());
}

/// The second part of the list.
pub open spec fn second_lines() -> Seq<&'static str> {
    seq![
        "builtins.len",
        "builtins.print",
        "collections.OrderedDict",
        "collections.defaultdict",
        "collections.deque",
        "collections.Counter",
        "collections.namedtuple",
        "datetime.date",
        "datetime.datetime",
        "datetime.time",
        "datetime.timedelta",
        "decimal.Decimal",
        "fractions.Fraction",
        "functools.partial",
    ]
}

fn push_second_lines(lines: &mut Vec<&'static str>)
    ensures
        final(lines)@ == old(lines)@ + second_lines(),
{
    lines.push("builtins.len");
    lines.push("builtins.print");
    lines.push("collections.OrderedDict");
    lines.push("collections.defaultdict");
    lines.push("collections.deque");
    lines.push("collections.Counter");
    lines.push("collections.namedtuple");
    lines.push("datetime.date");
    lines.push("datetime.datetime");
    lines.push("datetime.time");
    lines.push("datetime.timedelta");
    lines.push("decimal.Decimal");
    lines.push("fractions.Fraction");
    lines.push("functools.partial");
    assert(lines@ =~= old(lines)@ + second_lines());
}

/// The third part of the list.
pub open spec fn third_lines() -> Seq<&'static str> {
    seq![
        "itertools.chain",
        "itertools.count",
        "operator.add",
        "operator.itemgetter",
        "operator.attrgetter",
        "pathlib.PurePath",
        "pathlib.PurePosixPath",
        "uuid.UUID",
        "array.array",
        "copyreg._reconstructor",
        "enum.Enum",
        "types.SimpleNamespace",
        "os.path.join",
        "string.Template",
    ]
}

fn push_third_lines(lines: &mut Vec<&'static str>)
    ensures
        final(lines)@ == old(lines)@ + third_lines(),
{
    lines.push("itertools.chain");
    lines.push("itertools.count");
    lines.push("operator.add");
    lines.push("operator.itemgetter");
    lines.push("operator.attrgetter");
    lines.push("pathlib.PurePath");
    lines.push("pathlib.PurePosixPath");
    lines.push("uuid.UUID");
    lines.push("array.array");
    lines.push("copyreg._reconstructor");
    lines.push("enum.Enum");
    lines.push("types.SimpleNamespace");
    lines.push("os.path.join");
    lines.push("string.Template");
    assert(lines@ =~= old(lines)@ + third_lines());
}

/// The fourth part of the list.
pub open spec fn fourth_lines() -> Seq<&'static str> {
    seq![
        "re.compile",
        "json.loads",
        "base64.b64decode",
        "math.sqrt",
        "time.time",
        "random.Random",
        "struct.Struct",
        "io.BytesIO",
        "io.StringIO",
        "zlib.compress",
        "hashlib.sha256",
        "ipaddress.ip_address",
        "statistics.mean",
        "textwrap.dedent",
    ]
}

fn push_fourth_lines(lines: &mut Vec<&'static str>)
    ensures
        final(lines)@ == old(lines)@ + fourth_lines(),
{
    lines.push("re.compile");
    lines.push("json.loads");
    lines.push("base64.b64decode");
    lines.push("math.sqrt");
    lines.push("time.time");
    lines.push("random.Random");
    lines.push("struct.Struct");
    lines.push("io.BytesIO");
    lines.push("io.StringIO");
    lines.push("zlib.compress");
    lines.push("hashlib.sha256");
    lines.push("ipaddress.ip_address");
    lines.push("statistics.mean");
    lines.push("textwrap.dedent");
    assert(lines@ =~= old(lines)@ + fourth_lines());
}

/// The lines of the list.
pub open spec fn stdlib_lines() -> Seq<&'static str> {
    first_lines() + second_lines() + third_lines() + fourth_lines()
}

/// The list of names, one line each.
pub fn load_stdlib_complete() -> (lines: Vec<&'static str>)
    ensures
        lines@ == stdlib_lines(),
        lines@.len() > 0,
{
    let mut lines: Vec<&'static str> = Vec::new();
    push_first_lines(&mut lines);
    assert(lines@ =~= first_lines());
    push_second_lines(&mut lines);
    push_third_lines(&mut lines);
    push_fourth_lines(&mut lines);
    assert(first_lines().len() > 0);
    lines
}

/// The place of the first dot of `line` from `from` on; the length of
/// `line` where there is none.
pub open spec fn dot_place(line: Seq<u8>, from: int) -> int
    decreases line.len() - from,
{
    if from < 0 || from >= line.len() {
        line.len() as int
    } else if line[from] == 46u8 {
        from
    } else {
        dot_place(line, from + 1)
    }
}

/// The attribute name that stands in where a line has no dot.
pub open spec fn default_attribute() -> Seq<u8> {
    seq![111u8, 98u8, 106u8, 101u8, 99u8, 116u8]
}

/// The operand that names what `line` names: what stands before the first
/// dot and a line feed, then what stands behind that dot, or `object`
/// where there is no dot, and a line feed.
pub open spec fn module_operand(line: Seq<u8>) -> Seq<u8> {
    let dot = dot_place(line, 0);
    let attribute = if dot < line.len() {
        line.skip(dot + 1)
    } else {
        default_attribute()
    };
    line.take(dot) + seq![10u8] + attribute + seq![10u8]
}

/// The operand of a drawn line of the list, and the source after the draw.
pub open spec fn random_module(s: SourceView) -> (Seq<u8>, SourceView) {
    let pick = s.draw_index(stdlib_lines().len() as usize);
    (module_operand(stdlib_lines()[pick.0 as int].spec_bytes()), pick.1)
}

/// Exec form of [`module_operand`].
pub fn module_operand_bytes(line: &[u8]) -> (operand: Vec<u8>)
    ensures
        operand@ == module_operand(line@),
{
    let mut dot: usize = 0;
    while dot < line.len() && line[dot] != 46
        invariant
            dot <= line.len(),
            dot_place(line@, 0) == dot_place(line@, dot as int),
        decreases line.len() - dot,
    {
        dot = dot + 1;
    }
    let mut operand: Vec<u8> = Vec::new();
    push_all(&mut operand, vstd::slice::slice_subrange(line, 0, dot));
    operand.push(10);
    if dot < line.len() {
        push_all(&mut operand, vstd::slice::slice_subrange(line, dot + 1, line.len()));
    } else {
        operand.push(111);
        operand.push(98);
        operand.push(106);
        operand.push(101);
        operand.push(99);
        operand.push(116);
    }
    operand.push(10);
    assert(operand@ =~= module_operand(line@));
    operand
}

/// The operand of a drawn line of the list: module, line feed, attribute,
/// line feed.
pub fn get_random_module(source: &mut GenerationSource) -> (operand: Vec<u8>)
    ensures
        operand@ == random_module(old(source)@).0,
        final(source)@ == random_module(old(source)@).1,
{
    let modules = load_stdlib_complete();
    let idx: usize = source.choose_index(modules.len());
    let chosen: &str = modules[idx];
    module_operand_bytes(chosen.as_bytes())
}

} // verus!
