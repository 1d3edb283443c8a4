//! The text of a device program around an instruction body: as device assembly for the
//! driver, or as CUDA source with inline assembly for the runtime compiler.

use vstd::prelude::*;
use vstd::string::{StrSliceExecFns, StringExecFns};

verus! {

/// The text that opens every device program: language version, target and address width.
pub const PTX_HEADER: &'static str = "
    .version 7.8
    .target sm_90
    .address_size 64
";

pub open spec fn header_text() -> Seq<char> {
    "\n    .version 7.8\n    .target sm_90\n    .address_size 64\n"@
}

/// The entry point's parameter list: one 64-bit pointer per argument, comma separated.
pub open spec fn param_list(args: Seq<Seq<char>>) -> Seq<char>
    decreases args.len(),
{
    if args.len() == 0 {
        seq![]
    } else if args.len() == 1 {
        ".param .u64 "@ + args[0]
    } else {
        param_list(args.drop_last()) + ", "@ + ".param .u64 "@ + args.last()
    }
}

/// For each argument, a register for its address and the load of the parameter into it.
pub open spec fn param_loads(args: Seq<Seq<char>>) -> Seq<char>
    decreases args.len(),
{
    if args.len() == 0 {
        seq![]
    } else {
        param_loads(args.drop_last()) + ".reg .u64    "@ + args.last() + "_addr;\n"@
            + "ld.param.u64 "@ + args.last() + "_addr, ["@ + args.last() + "];\n"@
    }
}

/// A complete device program: the header, the `run` entry point taking the arguments, the
/// loads of their addresses, the instruction body and the return.
pub open spec fn program_text(args: Seq<Seq<char>>, body: Seq<char>) -> Seq<char> {
    header_text() + "\n"@ + ".entry run("@ + param_list(args) + ")"@ + "\n{\n"@ + param_loads(args)
        + "\n"@ + body + "\nret;\n}"@
}

pub open spec fn arg_views(args: Seq<&str>) -> Seq<Seq<char>> {
    args.map_values(|a: &str| a@)
}

/// Assembles the device program for an instruction body whose arguments are `args`.
pub fn prepare_source(args: &Vec<&str>, body: &str) -> (r: String)
    ensures
        r@ == program_text(arg_views(args@), body@),
{
    proof {
        reveal_strlit("\n    .version 7.8\n    .target sm_90\n    .address_size 64\n");
    }
    let mut text = String::from_str(PTX_HEADER);
    assert(text@ == header_text());
    text.append("\n");
    text.append(".entry run(");
    let ghost before_params = text@;
    let mut i: usize = 0;
    while i < args.len()
        invariant
            i <= args@.len(),
            text@ == before_params + param_list(arg_views(args@).subrange(0, i as int)),
        decreases args@.len() - i,
    {
        let ghost prev = arg_views(args@).subrange(0, i as int);
        let ghost next = arg_views(args@).subrange(0, i + 1);
        assert(next.drop_last() =~= prev);
        if i > 0 {
            text.append(", ");
        }
        text.append(".param .u64 ");
        text.append(args[i]);
        proof {
            if i == 0 {
                assert(prev =~= seq![]);
            }
            assert(next.last() == args@[i as int]@);
            assert(text@ =~= before_params + param_list(next));
        }
        i = i + 1;
    }
    assert(arg_views(args@).subrange(0, args@.len() as int) =~= arg_views(args@));
    text.append(")");
    text.append("\n{\n");
    let ghost before_loads = text@;
    let mut j: usize = 0;
    while j < args.len()
        invariant
            j <= args@.len(),
            text@ == before_loads + param_loads(arg_views(args@).subrange(0, j as int)),
        decreases args@.len() - j,
    {
        let ghost prev = arg_views(args@).subrange(0, j as int);
        let ghost next = arg_views(args@).subrange(0, j + 1);
        assert(next.drop_last() =~= prev);
        let a = args[j];
        text.append(".reg .u64    ");
        text.append(a);
        text.append("_addr;\n");
        text.append("ld.param.u64 ");
        text.append(a);
        text.append("_addr, [");
        text.append(a);
        text.append("];\n");
        proof {
            assert(next.last() == a@);
            assert(text@ =~= before_loads + param_loads(next));
        }
        j = j + 1;
    }
    text.append("\n");
    text.append(body);
    text.append("\nret;\n}");
    assert(text@ =~= program_text(arg_views(args@), body@));
    text
}

/// The text of a decimal digit.
pub open spec fn digit_text(d: nat) -> Seq<char> {
    if d == 0 {
        "0"@
    } else if d == 1 {
        "1"@
    } else if d == 2 {
        "2"@
    } else if d == 3 {
        "3"@
    } else if d == 4 {
        "4"@
    } else if d == 5 {
        "5"@
    } else if d == 6 {
        "6"@
    } else if d == 7 {
        "7"@
    } else if d == 8 {
        "8"@
    } else {
        "9"@
    }
}

/// `n` written in decimal.
pub open spec fn decimal(n: nat) -> Seq<char>
    decreases n,
{
    if n < 10 {
        digit_text(n)
    } else {
        decimal(n / 10) + digit_text(n % 10)
    }
}

/// Appends `n` in decimal to `text`.
pub fn append_decimal(text: &mut String, n: usize)
    ensures
        final(text)@ == old(text)@ + decimal(n as nat),
    decreases n,
{
    if n >= 10 {
        append_decimal(text, n / 10);
    }
    let d = n % 10;
    let ghost before = text@;
    if d == 0 {
        text.append("0");
    } else if d == 1 {
        text.append("1");
    } else if d == 2 {
        text.append("2");
    } else if d == 3 {
        text.append("3");
    } else if d == 4 {
        text.append("4");
    } else if d == 5 {
        text.append("5");
    } else if d == 6 {
        text.append("6");
    } else if d == 7 {
        text.append("7");
    } else if d == 8 {
        text.append("8");
    } else {
        text.append("9");
    }
    assert(text@ =~= old(text)@ + decimal(n as nat));
}

/// The kernel's parameter list in CUDA source: one `unsigned long long *` per argument.
pub open spec fn cuda_param_list(args: Seq<Seq<char>>) -> Seq<char>
    decreases args.len(),
{
    if args.len() == 0 {
        seq![]
    } else if args.len() == 1 {
        "unsigned long long * "@ + args[0]
    } else {
        cuda_param_list(args.drop_last()) + ", "@ + "unsigned long long * "@ + args.last()
    }
}

/// The operand list of the inline assembly: one 64-bit `"l"(name)` operand per argument.
pub open spec fn asm_operands(args: Seq<Seq<char>>) -> Seq<char>
    decreases args.len(),
{
    if args.len() == 0 {
        seq![]
    } else if args.len() == 1 {
        "\"l\"("@ + args[0] + ")"@
    } else {
        asm_operands(args.drop_last()) + ", "@ + "\"l\"("@ + args.last() + ")"@
    }
}

/// For each argument, a register for its address and the move of operand `%i` into it.
pub open spec fn asm_loads(args: Seq<Seq<char>>) -> Seq<char>
    decreases args.len(),
{
    if args.len() == 0 {
        seq![]
    } else {
        let i = (args.len() - 1) as nat;
        asm_loads(args.drop_last()) + ".reg .u64 "@ + args.last() + "_addr;\n"@ + "mov.u64   "@
            + args.last() + "_addr, %"@ + decimal(i) + ";\n"@
    }
}

/// The instruction body with every `%` doubled, as inline assembly text requires.
pub open spec fn escape_percent(s: Seq<char>) -> Seq<char>
    decreases s.len(),
{
    if s.len() == 0 {
        seq![]
    } else {
        escape_percent(s.drop_last()) + if s.last() == '%' {
            "%%"@
        } else {
            seq![s.last()]
        }
    }
}

/// A line without its terminating carriage return, if it has one.
pub open spec fn strip_cr(line: Seq<char>) -> Seq<char> {
    if line.len() > 0 && line.last() == '\r' {
        line.drop_last()
    } else {
        line
    }
}

/// The lines of `s` (the line under way being `cur`), each quoted and followed by a
/// newline, joined by four spaces; `first` says that no line has been written yet. Lines end
/// at `\n` (a `\r` before it is dropped), and a final `\n` does not start an empty line.
pub open spec fn quote_lines(s: Seq<char>, cur: Seq<char>, first: bool) -> Seq<char>
    decreases s.len(),
{
    let sep = if first {
        ""@
    } else {
        "    "@
    };
    if s.len() == 0 {
        if cur.len() == 0 {
            seq![]
        } else {
            sep + "\""@ + cur + "\"\n"@
        }
    } else if s[0] == '\n' {
        sep + "\""@ + strip_cr(cur) + "\"\n"@ + quote_lines(s.drop_first(), seq![], false)
    } else {
        quote_lines(s.drop_first(), cur.push(s[0]), first)
    }
}

/// The CUDA source that wraps an instruction body for the runtime compiler: a `run` kernel
/// taking one pointer per argument, whose body is one inline assembly statement holding the
/// address loads and the escaped instruction body, line by line, with the arguments as its
/// operands.
pub open spec fn inline_program_text(args: Seq<Seq<char>>, body: Seq<char>) -> Seq<char> {
    "extern \"C\" __global__ void run("@ + cuda_param_list(args) + ")"@ + " {\n"@ + "asm("@
        + quote_lines(asm_loads(args) + "\n"@ + escape_percent(body), seq![], true) + "    :: "@
        + asm_operands(args) + ");"@ + "\n}"@
}

/// Appends the quoted lines of `t` (see `quote_lines`) to `out`.
fn append_quoted_lines(out: &mut String, t: &str)
    ensures
        final(out)@ == old(out)@ + quote_lines(t@, seq![], true),
{
    let n = t.unicode_len();
    let mut start: usize = 0;
    let mut i: usize = 0;
    let mut first = true;
    let ghost target = old(out)@ + quote_lines(t@, seq![], true);
    assert(t@.subrange(0, n as int) =~= t@);
    assert(t@.subrange(0, 0) =~= seq![]);
    while i < n
        invariant
            n == t@.len(),
            start <= i <= n,
            out@ + quote_lines(t@.subrange(i as int, n as int), t@.subrange(start as int, i as int), first)
                == target,
        decreases n - i,
    {
        let c = t.get_char(i);
        let ghost rest = t@.subrange(i as int, n as int);
        let ghost cur = t@.subrange(start as int, i as int);
        let ghost old_out = out@;
        let ghost sep = if first {
            ""@
        } else {
            "    "@
        };
        assert(rest.drop_first() =~= t@.subrange(i + 1, n as int));
        assert(rest[0] == c);
        if c == '\n' {
            assert(quote_lines(rest, cur, first) == sep + "\""@ + strip_cr(cur) + "\"\n"@
                + quote_lines(rest.drop_first(), seq![], false));
            if !first {
                out.append("    ");
            }
            out.append("\"");
            let end = if i > start && t.get_char(i - 1) == '\r' {
                i - 1
            } else {
                i
            };
            out.append(t.substring_char(start, end));
            out.append("\"\n");
            proof {
                assert(t@.subrange(start as int, end as int) =~= strip_cr(cur));
                assert(t@.subrange(i + 1, i + 1) =~= seq![]);
                if first {
                    reveal_strlit("");
                    assert(out@ =~= old_out + sep + "\""@ + strip_cr(cur) + "\"\n"@);
                } else {
                    assert(out@ =~= old_out + sep + "\""@ + strip_cr(cur) + "\"\n"@);
                }
            }
            start = i + 1;
            first = false;
        } else {
            assert(cur.push(c) =~= t@.subrange(start as int, i + 1));
            assert(quote_lines(rest, cur, first) == quote_lines(rest.drop_first(), cur.push(c), first));
        }
        i = i + 1;
    }
    let ghost last_out = out@;
    let ghost cur = t@.subrange(start as int, n as int);
    assert(t@.subrange(n as int, n as int) =~= seq![]);
    if start < n {
        if !first {
            out.append("    ");
        } else {
            proof {
                reveal_strlit("");
            }
        }
        out.append("\"");
        out.append(t.substring_char(start, n));
        out.append("\"\n");
        assert(out@ =~= last_out + (if first { ""@ } else { "    "@ }) + "\""@ + cur + "\"\n"@);
    } else {
        assert(cur.len() == 0);
    }
    assert(out@ =~= target);
}

/// Assembles the CUDA source that wraps an instruction body whose arguments are `args`.
pub fn prepare_inline_source(args: &Vec<&str>, body: &str) -> (r: String)
    ensures
        r@ == inline_program_text(arg_views(args@), body@),
{
    // The assembly text: address loads, a blank line, then the body with `%` doubled.
    let mut assembly = String::new();
    let mut j: usize = 0;
    while j < args.len()
        invariant
            j <= args@.len(),
            assembly@ == asm_loads(arg_views(args@).subrange(0, j as int)),
        decreases args@.len() - j,
    {
        let ghost prev = arg_views(args@).subrange(0, j as int);
        let ghost next = arg_views(args@).subrange(0, j + 1);
        assert(next.drop_last() =~= prev);
        let a = args[j];
        assembly.append(".reg .u64 ");
        assembly.append(a);
        assembly.append("_addr;\n");
        assembly.append("mov.u64   ");
        assembly.append(a);
        assembly.append("_addr, %");
        append_decimal(&mut assembly, j);
        assembly.append(";\n");
        proof {
            assert(next.last() == a@);
            assert(assembly@ =~= asm_loads(next));
        }
        j = j + 1;
    }
    assert(arg_views(args@).subrange(0, args@.len() as int) =~= arg_views(args@));
    assembly.append("\n");
    let ghost before_body = assembly@;
    let n = body.unicode_len();
    let mut k: usize = 0;
    while k < n
        invariant
            n == body@.len(),
            k <= n,
            assembly@ == before_body + escape_percent(body@.subrange(0, k as int)),
        decreases n - k,
    {
        let ghost prev = body@.subrange(0, k as int);
        let ghost next = body@.subrange(0, k + 1);
        assert(next.drop_last() =~= prev);
        let c = body.get_char(k);
        if c == '%' {
            assembly.append("%%");
        } else {
            let piece = body.substring_char(k, k + 1);
            assert(piece@ =~= seq![c]);
            assembly.append(piece);
        }
        proof {
            assert(next.last() == c);
            assert(assembly@ =~= before_body + escape_percent(next));
        }
        k = k + 1;
    }
    assert(body@.subrange(0, n as int) =~= body@);
    let mut text = String::from_str("extern \"C\" __global__ void run(");
    let ghost before_params = text@;
    let mut i: usize = 0;
    while i < args.len()
        invariant
            i <= args@.len(),
            text@ == before_params + cuda_param_list(arg_views(args@).subrange(0, i as int)),
        decreases args@.len() - i,
    {
        let ghost prev = arg_views(args@).subrange(0, i as int);
        let ghost next = arg_views(args@).subrange(0, i + 1);
        assert(next.drop_last() =~= prev);
        if i > 0 {
            text.append(", ");
        }
        text.append("unsigned long long * ");
        text.append(args[i]);
        proof {
            assert(next.last() == args@[i as int]@);
            assert(text@ =~= before_params + cuda_param_list(next));
        }
        i = i + 1;
    }
    text.append(")");
    text.append(" {\n");
    text.append("asm(");
    append_quoted_lines(&mut text, assembly.as_str());
    text.append("    :: ");
    let ghost before_ops = text@;
    let mut m: usize = 0;
    while m < args.len()
        invariant
            m <= args@.len(),
            text@ == before_ops + asm_operands(arg_views(args@).subrange(0, m as int)),
        decreases args@.len() - m,
    {
        let ghost prev = arg_views(args@).subrange(0, m as int);
        let ghost next = arg_views(args@).subrange(0, m + 1);
        assert(next.drop_last() =~= prev);
        if m > 0 {
            text.append(", ");
        }
        text.append("\"l\"(");
        text.append(args[m]);
        text.append(")");
        proof {
            assert(next.last() == args@[m as int]@);
            assert(text@ =~= before_ops + asm_operands(next));
        }
        m = m + 1;
    }
    text.append(");");
    text.append("\n}");
    assert(text@ =~= inline_program_text(arg_views(args@), body@));
    text
}

} // verus!
