use emul8::debugger::{parse_command, trim, Command};

#[test]
fn trimming_agrees_with_the_standard_library() {
    let samples = [
        "", " ", "   ", "a", " a", "a ", " a ", "\ta b\n", "\r\n", "s\n", "  st  \r\n",
        "\u{a0}x\u{3000}", "é ", " é", "a\u{2003}", "\u{1680}\u{2000}", "no blanks",
        " \u{85}in\u{85} ", "x\u{200b}", "\u{200b}",
    ];
    for sample in samples {
        assert_eq!(trim(sample), sample.trim(), "sample {:?}", sample);
    }
}

#[test]
fn one_word_commands() {
    assert_eq!(parse_command("s\n"), Command::Step);
    assert_eq!(parse_command("q\n"), Command::Quit);
    assert_eq!(parse_command("r\n"), Command::Registers);
    assert_eq!(parse_command("st\n"), Command::Stack);
    assert_eq!(parse_command("d\n"), Command::Display);
    assert_eq!(parse_command("i\n"), Command::Instruction);
    assert_eq!(parse_command("c\n"), Command::Continue);
    assert_eq!(parse_command("  s \r\n"), Command::Step);
    assert_eq!(parse_command("s"), Command::Step);
}

#[test]
fn unknown_commands() {
    for line in ["", "\n", "x\n", "S\n", "ss\n", "s t\n", "p\n", "step\n", "p", "pp 1\n"] {
        assert_eq!(parse_command(line), Command::Unknown, "line {:?}", line);
    }
}

#[test]
fn peek_commands() {
    assert_eq!(parse_command("p 0x200\n"), Command::Peek { address: 0x200 });
    assert_eq!(parse_command("p 512\n"), Command::Peek { address: 512 });
    assert_eq!(parse_command("p    0xFFFF  \n"), Command::Peek { address: 0xFFFF });
    assert_eq!(parse_command("p 0\n"), Command::Peek { address: 0 });
    assert_eq!(parse_command("p 65535"), Command::Peek { address: 65535 });
    assert_eq!(parse_command("p 65536\n"), Command::Unknown);
    assert_eq!(parse_command("p 0x10000\n"), Command::Unknown);
    assert_eq!(parse_command("p \n"), Command::Unknown);
    assert_eq!(parse_command("p loop\n"), Command::Unknown);
    assert_eq!(parse_command("p 1 2\n"), Command::Unknown);
    assert_eq!(parse_command("p -1\n"), Command::Unknown);
    // a blank in front makes the line a word, not a peek
    assert_eq!(parse_command(" p 1\n"), Command::Unknown);
}
