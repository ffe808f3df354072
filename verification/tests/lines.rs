use catr::stream::LineCounter;
use catr::{decimal_string, numbered_line, plain_line, render_source, Numbering};

fn strings(items: &[&str]) -> Vec<String> {
    items.iter().map(|s| s.to_string()).collect()
}

#[test]
fn decimal_of_small_and_large_numbers() {
    assert_eq!(decimal_string(0), "0");
    assert_eq!(decimal_string(7), "7");
    assert_eq!(decimal_string(10), "10");
    assert_eq!(decimal_string(1_002_030), "1002030");
    assert_eq!(decimal_string(u64::MAX), "18446744073709551615");
}

#[test]
fn decimal_agrees_with_the_standard_library() {
    for n in (0..3000u64).chain([99_999, 100_000, 999_999, 1_000_000, u64::MAX - 1]) {
        assert_eq!(decimal_string(n), n.to_string());
    }
}

#[test]
fn numbered_line_is_right_aligned_in_six_columns() {
    assert_eq!(numbered_line(1, "one"), "     1\tone\n");
    assert_eq!(numbered_line(42, ""), "    42\t\n");
    assert_eq!(numbered_line(123_456, "x"), "123456\tx\n");
}

#[test]
fn numbered_line_with_a_number_wider_than_the_field() {
    assert_eq!(numbered_line(1_234_567, "x"), "1234567\tx\n");
}

#[test]
fn numbered_line_agrees_with_the_standard_format() {
    for n in [0u64, 1, 9, 10, 99, 100, 99_999, 100_000, 999_999, 1_000_000, 12_345_678] {
        for line in ["", "a", "two words", "tab\there", "\u{e9}t\u{e9}"] {
            assert_eq!(numbered_line(n, line), format!("{:>6}\t{}\n", n, line));
        }
    }
}

#[test]
fn plain_line_adds_only_the_newline() {
    assert_eq!(plain_line(""), "\n");
    assert_eq!(plain_line("  spaced  "), "  spaced  \n");
}

#[test]
fn unnumbered_source_is_unchanged() {
    let lines = strings(&["one", "", "  two", "three "]);
    let out = render_source(Numbering::Off, &lines);
    assert_eq!(out, strings(&["one\n", "\n", "  two\n", "three \n"]));
    for (line, written) in lines.iter().zip(out.iter()) {
        assert_eq!(written, &format!("{}\n", line));
    }
}

#[test]
fn every_line_is_numbered_by_position() {
    let lines = strings(&["a", "", "b", "", "", "c"]);
    let out = render_source(Numbering::AllLines, &lines);
    assert_eq!(out.len(), lines.len());
    for (i, line) in lines.iter().enumerate() {
        assert_eq!(out[i], format!("{:>6}\t{}\n", i + 1, line));
    }
}

#[test]
fn nonblank_lines_are_numbered_and_blank_lines_are_bare() {
    let lines = strings(&["", "a", "", "", "b", " ", "c", ""]);
    let out = render_source(Numbering::NonblankLines, &lines);
    assert_eq!(
        out,
        strings(&[
            "\n",
            "     1\ta\n",
            "\n",
            "\n",
            "     2\tb\n",
            "     3\t \n",
            "     4\tc\n",
            "\n",
        ])
    );
}

#[test]
fn empty_source_gives_nothing() {
    for mode in [Numbering::Off, Numbering::AllLines, Numbering::NonblankLines] {
        assert!(render_source(mode, &Vec::new()).is_empty());
    }
}

#[test]
fn number_all_scenario() {
    let out = render_source(Numbering::AllLines, &strings(&["one", "two"]));
    assert_eq!(out.concat(), "     1\tone\n     2\ttwo\n");
}

#[test]
fn number_nonblank_scenario() {
    let out = render_source(Numbering::NonblankLines, &strings(&["one", "", "two"]));
    assert_eq!(out.concat(), "     1\tone\n\n     2\ttwo\n");
}

#[test]
fn counter_counts_lines_and_lines_with_text() {
    let mut counter = LineCounter::new();
    assert!(counter.can_count());
    assert_eq!(counter.emit(Numbering::NonblankLines, ""), "\n");
    assert_eq!(counter.emit(Numbering::NonblankLines, "x"), "     1\tx\n");
    assert_eq!(counter.emit(Numbering::AllLines, "y"), "     3\ty\n");
    assert_eq!(counter.emit(Numbering::Off, "z"), "z\n");
    assert_eq!(counter.emit(Numbering::AllLines, ""), "     5\t\n");
    assert_eq!(counter.emit(Numbering::NonblankLines, "w"), "     4\tw\n");
}

#[test]
fn many_lines_widen_the_number() {
    let lines: Vec<String> = (0..1_000_001).map(|_| "l".to_string()).collect();
    let out = render_source(Numbering::AllLines, &lines);
    assert_eq!(out[999_998], "999999\tl\n");
    assert_eq!(out[999_999], "1000000\tl\n");
    assert_eq!(out[1_000_000], "1000001\tl\n");
}
