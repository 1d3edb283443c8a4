use ptx_harness::program::{prepare_inline_source, prepare_source};

fn reference_inline(args: &[&str], body: &str) -> String {
    let signature = format!(
        "extern \"C\" __global__ void run({})",
        args.iter()
            .map(|a| format!("unsigned long long * {}", a))
            .collect::<Vec<_>>()
            .join(", ")
    );
    let mut loads = String::new();
    for (i, a) in args.iter().enumerate() {
        loads.push_str(&format!(".reg .u64 {a}_addr;\n"));
        loads.push_str(&format!("mov.u64   {a}_addr, %{i};\n"));
    }
    let operands = args
        .iter()
        .map(|a| format!(r#""l"({})"#, a))
        .collect::<Vec<_>>()
        .join(", ");
    let text = format!("{}\n{}", loads, body.replace("%", "%%"));
    let quoted = text
        .lines()
        .map(|l| format!("\"{}\"\n", l))
        .collect::<Vec<_>>()
        .join("    ");
    format!("{} {{\n{}\n}}", signature, format!("asm({}    :: {});", quoted, operands))
}

#[test]
fn inline_source_quotes_lines_and_doubles_percent() {
    let args = vec!["input", "output"];
    let body = "mov.u32 %r1, %tid.x;\r\nadd.u32 %r2, %r1, 1;\n";
    assert_eq!(prepare_inline_source(&args, body), reference_inline(&args, body));
    let many: Vec<&str> = vec!["a0", "a1", "a2", "a3", "a4", "a5", "a6", "a7", "a8", "a9", "a10", "a11"];
    let body = "x\n\ny";
    let text = prepare_inline_source(&many, body);
    assert_eq!(text, reference_inline(&many, body));
    assert!(text.contains("mov.u64   a11_addr, %11;"));
}

#[test]
fn inline_source_without_arguments() {
    let args: Vec<&str> = vec![];
    assert_eq!(prepare_inline_source(&args, ""), reference_inline(&args, ""));
    assert_eq!(prepare_inline_source(&args, "ret;"), reference_inline(&args, "ret;"));
}

#[test]
fn driver_source_layout() {
    let args = vec!["input", "output"];
    let text = prepare_source(&args, "BODY");
    assert_eq!(
        text,
        "\n    .version 7.8\n    .target sm_90\n    .address_size 64\n\n.entry run(.param .u64 input, .param .u64 output)\n{\n.reg .u64    input_addr;\nld.param.u64 input_addr, [input];\n.reg .u64    output_addr;\nld.param.u64 output_addr, [output];\n\nBODY\nret;\n}"
    );
}
