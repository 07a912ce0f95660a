use git_x::base::output::{Format, TermColor};

#[test]
fn colours_use_their_escape_sequences() {
    console::set_colors_enabled(true);
    assert_eq!(Format::colored("ok", TermColor::Red), "\u{1b}[31mok\u{1b}[0m");
    assert_eq!(Format::colored("ok", TermColor::White), "\u{1b}[37mok\u{1b}[0m");
    assert_eq!(Format::colored("ok", TermColor::Color256(202)), "\u{1b}[38;5;202mok\u{1b}[0m");
    assert_eq!(Format::colored("ok", TermColor::TrueColor(1, 20, 255)), "\u{1b}[38;2;1;20;255mok\u{1b}[0m");
    console::set_colors_enabled(false);
    assert_eq!(Format::colored("ok", TermColor::Green), "ok");
}
