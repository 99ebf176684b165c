use fu::{ensure, raise, Cause, Error, Location, Wrap};

fn at(file: &str, line: u32, column: u32) -> Location {
    Location::new(file.to_string(), line, column)
}

fn plain(text: &str) -> String {
    text.replace("\x1b[90m", "").replace("\x1b[0m", "")
}

#[test]
fn fresh_error_renders_message_and_location() {
    let e = Error::new(Some("value must be non-negative".to_string()), at("examples/foo.rs", 4, 5));
    assert_eq!(plain(&e.to_string()), "value must be non-negative    examples/foo.rs:[4:5]");
}

#[test]
fn location_is_dimmed() {
    let e = Error::new(Some("m".to_string()), at("a.rs", 1, 2));
    assert_eq!(e.to_string(), "m    \x1b[90ma.rs:[1:2]\x1b[0m");
}

#[test]
fn error_without_message_renders_location_only() {
    let e = Error::new(None, at("a.rs", 7, 3));
    assert_eq!(plain(&e.to_string()), "a.rs:[7:3]");
}

#[test]
fn numbers_render_in_decimal() {
    let e = Error::new(Some("big".to_string()), at("b.rs", 4294967295, 1090));
    assert_eq!(plain(&e.to_string()), "big    b.rs:[4294967295:1090]");
    let e = Error::new(Some("ten".to_string()), at("b.rs", 10, 100));
    assert_eq!(plain(&e.to_string()), "ten    b.rs:[10:100]");
}

#[test]
fn message_and_location_appear_for_any_message() {
    for m in ["", "x", "a longer message: with [brackets]", "line\nbreak"] {
        let e = Error::new(Some(m.to_string()), at("src/x.rs", 12, 34));
        let text = e.to_string();
        assert!(text.contains(m));
        assert!(text.contains("src/x.rs:[12:34]"));
    }
}

#[test]
fn rendering_twice_is_identical() {
    let e = Error::new(Some("once".to_string()), at("r.rs", 3, 4))
        .chain(Cause::with_source("outer".to_string(), Cause::new("inner".to_string())));
    assert_eq!(e.to_string(), e.to_string());
}

#[test]
fn wrapped_file_not_found_renders_two_lines() {
    let failed: Result<u8, Cause> = Err(Cause::new("No such file or directory (os error 2)".to_string()));
    let e = failed.wrap("wrapped".to_string(), at("src/main.rs", 9, 17)).unwrap_err();
    let text = plain(&e.to_string());
    let lines: Vec<&str> = text.lines().collect();
    assert_eq!(lines, vec!["wrapped    src/main.rs:[9:17]", "Caused by: No such file or directory (os error 2)"]);
}

#[test]
fn io_error_text_becomes_the_cause_line() {
    let io = std::io::Error::from(std::io::ErrorKind::NotFound);
    let expected = format!("Caused by: {}", io);
    let failed: Result<(), Cause> = Err(Cause::new(io.to_string()));
    let e = failed.wrap("wrapped".to_string(), at("w.rs", 2, 2)).unwrap_err();
    assert_eq!(plain(&e.to_string()).lines().nth(1), Some(expected.as_str()));
}

#[test]
fn wrap_passes_success_through() {
    let ok: Result<u32, Cause> = Ok(7);
    assert_eq!(ok.wrap("unused".to_string(), at("w.rs", 1, 1)).ok(), Some(7));
    let ok: Result<&str, Error> = Ok("fine");
    assert_eq!(ok.wrap("unused".to_string(), at("w.rs", 1, 1)).ok(), Some("fine"));
}

#[test]
fn chain_of_doubly_wrapped_error_has_three_elements() {
    let e0 = Cause::with_source("E0".to_string(), Cause::new("E1".to_string()));
    let failed: Result<(), Cause> = Err(e0);
    let e = failed.wrap("top".to_string(), at("c.rs", 5, 6)).unwrap_err();
    let mut it = e.chain_iter();
    let mut seen = Vec::new();
    while let Some(t) = it.next() {
        seen.push(t);
    }
    assert_eq!(seen.len(), 3);
    assert_eq!(seen[0], e.to_string());
    assert_eq!(seen[1], "E0");
    assert_eq!(seen[2], "E1");
    assert_eq!(it.next(), None);
}

#[test]
fn chain_walk_restarts_and_error_alone_has_one_element() {
    let e = Error::new(Some("alone".to_string()), at("c.rs", 1, 1));
    for _ in 0..2 {
        let mut it = e.chain_iter();
        assert_eq!(it.next(), Some(e.to_string()));
        assert_eq!(it.next(), None);
    }
}

#[test]
fn doubly_wrapped_error_renders_each_cause_on_its_own_line() {
    let e0 = Cause::with_source("E0".to_string(), Cause::new("E1".to_string()));
    let e = Error::new(Some("top".to_string()), at("c.rs", 5, 6)).chain(e0);
    assert_eq!(plain(&e.to_string()), "top    c.rs:[5:6]\nCaused by: E0\nCaused by: E1");
}

#[test]
fn context_replaces_only_the_message() {
    let e = Error::new(Some("old".to_string()), at("k.rs", 8, 9)).chain(Cause::new("root".to_string()));
    let e = e.context("new".to_string());
    assert_eq!(plain(&e.to_string()), "new    k.rs:[8:9]\nCaused by: root");
    assert_eq!(e.message(), Some("new"));
    assert_eq!(e.location().line(), 8);
    assert_eq!(e.location().column(), 9);
    assert_eq!(e.location().file(), "k.rs");
    assert_eq!(e.source().map(|c| c.text()), Some("root"));
}

#[test]
fn context_on_error_without_message_adds_one() {
    let e = Error::new(None, at("k.rs", 1, 1)).context("now".to_string());
    assert_eq!(plain(&e.to_string()), "now    k.rs:[1:1]");
}

#[test]
fn chain_overwrites_earlier_cause() {
    let e = Error::new(Some("m".to_string()), at("k.rs", 2, 3))
        .chain(Cause::new("first".to_string()))
        .chain(Cause::new("second".to_string()));
    assert_eq!(plain(&e.to_string()), "m    k.rs:[2:3]\nCaused by: second");
    assert_eq!(e.source().map(|c| c.len()), Some(1));
}

#[test]
fn fresh_error_has_no_source() {
    let e = Error::new(Some("m".to_string()), at("k.rs", 2, 3));
    assert!(e.source().is_none());
}

#[test]
fn wrapping_an_error_of_this_kind_keeps_its_text_and_causes() {
    let inner = Error::new(Some("inner".to_string()), at("i.rs", 1, 2)).chain(Cause::new("root".to_string()));
    let inner_text = inner.to_string();
    let failed: Result<(), Error> = Err(inner);
    let e = failed.wrap("outer".to_string(), at("o.rs", 3, 4)).unwrap_err();
    let cause = e.source().unwrap();
    assert_eq!(cause.len(), 2);
    assert_eq!(cause.text(), inner_text);
    assert_eq!(
        plain(&e.to_string()),
        "outer    o.rs:[3:4]\nCaused by: inner    i.rs:[1:2]\nCaused by: root\nCaused by: root"
    );
}

#[test]
fn into_cause_keeps_rendering_then_causes() {
    let e = Error::new(None, at("i.rs", 1, 2)).chain(Cause::new("root".to_string()));
    let text = e.to_string();
    let c = e.into_cause();
    assert_eq!(c.len(), 2);
    assert_eq!(c.text(), text);
}

fn check(x: i32) -> Result<i32, Error> {
    ensure(x >= 0, "x must be >= 0".to_string(), at("s.rs", 2, 5))?;
    Ok(x * 2)
}

#[test]
fn ensure_false_fails_with_its_message() {
    let e = check(-3).unwrap_err();
    assert_eq!(e.message(), Some("x must be >= 0"));
    assert_eq!(plain(&e.to_string()), "x must be >= 0    s.rs:[2:5]");
}

#[test]
fn ensure_true_lets_the_function_continue() {
    assert_eq!(check(4).ok(), Some(8));
    assert!(ensure(true, "...".to_string(), at("s.rs", 1, 1)).is_ok());
}

#[test]
fn ensure_false_is_the_same_as_raise() {
    let a = ensure(false, "m".to_string(), at("s.rs", 6, 7)).unwrap_err();
    let b = raise::<()>("m".to_string(), at("s.rs", 6, 7)).unwrap_err();
    assert_eq!(a.to_string(), b.to_string());
    assert!(a.source().is_none() && b.source().is_none());
}
