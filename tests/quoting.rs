use selfbuild::quoting::{quote, trace_line, write_quoted};

fn quote_str(s: &[u8]) -> String {
    String::from_utf8(quote(s)).unwrap()
}

#[test]
fn quoting() {
    assert!("hello" == quote_str(b"hello"));
    assert!("hello/world" == quote_str(b"hello/world"));
    assert!("'hello world'" == quote_str(b"hello world"));
    assert!("'hello*world'" == quote_str(b"hello*world"));
    assert!("'\"hello\" world'" == quote_str(b"\"hello\" world"));
    assert!("''\"'\"'hello'\"'\"' world'" == quote_str(b"'hello' world"));
}

#[test]
fn quoting_empty() {
    assert_eq!(quote_str(b""), "''");
}

#[test]
fn quoting_every_safe_byte() {
    let safe = b"abcdefghijklmnopqrstuvwxyzABCDEFGHIJKLMNOPQRSTUVWXYZ0123456789@%+=:,./-";
    assert_eq!(quote(safe), safe.to_vec());
    assert_eq!(quote_str(b"z"), "z");
    assert_eq!(quote_str(b"Z9"), "Z9");
}

#[test]
fn quoting_unsafe_bytes() {
    assert_eq!(quote_str(b"a b"), "'a b'");
    assert_eq!(quote_str(b"$HOME"), "'$HOME'");
    assert_eq!(quote_str(b"tab\there"), "'tab\there'");
    assert_eq!(quote_str(b"'"), "''\"'\"''");
    assert_eq!(quote_str(b"''"), "''\"'\"''\"'\"''");
    assert_eq!(quote(&[0xff, b'a']), vec![b'\'', 0xff, b'a', b'\'']);
}

#[test]
fn write_quoted_appends() {
    let mut out = b"x=".to_vec();
    write_quoted(&mut out, b"a b");
    assert_eq!(out, b"x='a b'".to_vec());
    write_quoted(&mut out, b"");
    assert_eq!(out, b"x='a b'''".to_vec());
}

#[test]
fn trace_line_without_args() {
    assert_eq!(trace_line(b"ls", &[]), b"[CMD] ls\n".to_vec());
}

#[test]
fn trace_line_quotes_each_word() {
    let args = vec![b"main.rs".to_vec(), b"-o".to_vec(), b"my prog".to_vec(), b"".to_vec()];
    assert_eq!(
        String::from_utf8(trace_line(b"rustc", &args)).unwrap(),
        "[CMD] rustc main.rs -o 'my prog' ''\n"
    );
}
